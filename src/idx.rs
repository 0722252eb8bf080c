use vstd::prelude::*;
use crate::buf::ColorBuf;
use crate::color::ColorValue;
use crate::def::{
    channel_max, color_count, field_of, in_bounds, lemma_channel, lemma_field_independent,
    lemma_field_round_trip, read_field, with_field, write_field, ColorFmt, ColorGet, ColorSet,
};

verus! {

/// Number of colors a palette holds.
pub open spec fn palette_len<Buf: ColorBuf>(colors: Buf) -> nat {
    color_count(colors.data().len(), colors.format().bits())
}

/// Palette color at `slot`.
pub open spec fn palette_color<Buf: ColorBuf>(colors: Buf, slot: int) -> <Buf::ColorFmt as ColorFmt>::ColorType {
    colors.format().decode(colors.data(), slot)
}

/// Number of palette slots an index of `width` bits can address: the palette's
/// length, up to `2^width`.
pub open spec fn slot_limit<Buf: ColorBuf>(colors: Buf, width: u8) -> nat {
    let max = channel_max(width) as nat + 1;
    if palette_len(colors) < max {
        palette_len(colors)
    } else {
        max
    }
}

/// Whether every addressable palette slot can be read.
pub open spec fn palette_ready<Buf: ColorBuf>(colors: Buf, width: u8) -> bool {
    &&& colors.data().len() * 8 <= usize::MAX
    &&& forall|k: int|
        0 <= k < slot_limit(colors, width) ==> #[trigger] colors.format().readable(colors.data(), k)
}

/// Whether `color` stands in one of the first `limit` palette slots.
pub open spec fn in_palette<Buf: ColorBuf>(
    colors: Buf,
    limit: nat,
    color: <Buf::ColorFmt as ColorFmt>::ColorType,
) -> bool {
    exists|k: int| 0 <= k < limit && #[trigger] palette_color(colors, k) == color
}

/// The first palette slot from `from` on, below `limit`, that holds `color`.
pub open spec fn first_slot<Buf: ColorBuf>(
    colors: Buf,
    limit: nat,
    color: <Buf::ColorFmt as ColorFmt>::ColorType,
    from: nat,
) -> Option<nat>
    decreases limit - from,
{
    if from >= limit {
        None
    } else if palette_color(colors, from as int) == color {
        Some(from)
    } else {
        first_slot(colors, limit, color, from + 1)
    }
}

/// The slot that the search finds holds the color, and the search fails only
/// where no slot does.
pub proof fn lemma_first_slot<Buf: ColorBuf>(
    colors: Buf,
    limit: nat,
    color: <Buf::ColorFmt as ColorFmt>::ColorType,
    from: nat,
)
    ensures
        first_slot(colors, limit, color, from) matches Some(k) ==> from <= k < limit
            && palette_color(colors, k as int) == color,
        first_slot(colors, limit, color, from) is None ==> forall|j: int|
            from <= j < limit ==> palette_color(colors, j) != color,
    decreases limit - from,
{
    if from < limit && palette_color(colors, from as int) != color {
        lemma_first_slot(colors, limit, color, from + 1);
    }
}

proof fn lemma_search<Buf: ColorBuf>(
    colors: Buf,
    limit: nat,
    color: <Buf::ColorFmt as ColorFmt>::ColorType,
)
    ensures
        in_palette(colors, limit, color) <==> first_slot(colors, limit, color, 0) is Some,
        first_slot(colors, limit, color, 0) matches Some(k) ==> k < limit && palette_color(
            colors,
            k as int,
        ) == color,
{
    lemma_first_slot(colors, limit, color, 0);
    if let Some(k) = first_slot(colors, limit, color, 0) {
        assert(palette_color(colors, k as int) == color);
    }
}

/// 1-bit indexed color format: each color is a 1-bit index into a palette
pub struct IDX1<Buf> {
    colors: Buf,
}

impl<Buf: ColorBuf> IDX1<Buf> {
    /// The palette
    pub closed spec fn palette(&self) -> Buf {
        self.colors
    }

    pub fn new(colors: Buf) -> (r: Self)
        ensures
            r.palette() == colors,
    {
        IDX1 { colors }
    }

    /// Writing a color that no addressable palette slot holds leaves the buffer as it was.
    pub proof fn lemma_unmatched(
        &self,
        buffer: Seq<u8>,
        index: int,
        color: <Buf::ColorFmt as ColorFmt>::ColorType,
    )
        requires
            !self.exact(color),
        ensures
            self.encode(buffer, index, color) == buffer,
    {
        lemma_search(self.palette(), slot_limit(self.palette(), 1), color);
    }
}

impl<Buf: ColorBuf> ColorFmt for IDX1<Buf> {
    type ColorType = <Buf::ColorFmt as ColorFmt>::ColorType;

    open spec fn bits(&self) -> nat {
        1
    }

    proof fn lemma_bits(&self) {
    }

    fn color_bits(&self) -> (b: usize) {
        1
    }

    fn num_colors(&self, buffer: &[u8]) -> (n: usize) {
        buffer.len() * 8
    }
}

impl<Buf: ColorBuf> ColorGet for IDX1<Buf> {
    open spec fn readable(&self, buffer: Seq<u8>, index: int) -> bool {
        &&& in_bounds(buffer.len(), 1, index)
        &&& self.palette().format().readable(
            self.palette().data(),
            field_of(buffer, index, 1) as int,
        )
    }

    open spec fn decode(&self, buffer: Seq<u8>, index: int) -> Self::ColorType {
        palette_color(self.palette(), field_of(buffer, index, 1) as int)
    }

    fn get_color(&self, buffer: &[u8], index: usize) -> (c: Self::ColorType) {
        let color_index = read_field(buffer, index, 1) as usize;
        self.colors.get(color_index)
    }
}

impl<Buf: ColorBuf> ColorSet for IDX1<Buf> {
    open spec fn writable(&self, len: nat, index: int) -> bool {
        in_bounds(len, 1, index) && palette_ready(self.palette(), 1)
    }

    open spec fn encode(&self, buffer: Seq<u8>, index: int, color: Self::ColorType) -> Seq<u8> {
        match first_slot(self.palette(), slot_limit(self.palette(), 1), color, 0) {
            Some(k) => with_field(buffer, index, 1, k as u8),
            None => buffer,
        }
    }

    open spec fn exact(&self, color: Self::ColorType) -> bool {
        in_palette(self.palette(), slot_limit(self.palette(), 1), color)
    }

    fn set_color(&self, buffer: &mut [u8], index: usize, color: Self::ColorType) {
        let ghost colors = self.palette();
        let ghost limit = slot_limit(colors, 1);
        let n = self.colors.len();
        let limit_exec: usize = if n < 2 {
            n
        } else {
            2
        };
        let mut k: usize = 0;
        while k < limit_exec
            invariant
                limit == slot_limit(colors, 1),
                limit_exec == limit,
                k <= limit,
                colors == self.palette(),
                colors == self.colors,
                palette_ready(colors, 1),
                first_slot(colors, limit, color, k as nat) == first_slot(colors, limit, color, 0),
                buffer@ == old(buffer)@,
                in_bounds(buffer@.len(), 1, index as int),
            decreases limit - k,
        {
            if self.colors.get(k).same(&color) {
                write_field(buffer, index, 1, k as u8);
                return;
            }
            k += 1;
        }
    }

    proof fn lemma_writable(&self, buffer: Seq<u8>, index: int, color: Self::ColorType) {
        lemma_field_round_trip(buffer, index, 1, 0);
        let limit = slot_limit(self.palette(), 1);
        lemma_search(self.palette(), limit, color);
        if let Some(k) = first_slot(self.palette(), limit, color, 0) {
            lemma_field_round_trip(buffer, index, 1, k as u8);
        }
    }

    proof fn lemma_round_trip(&self, buffer: Seq<u8>, index: int, color: Self::ColorType) {
        let limit = slot_limit(self.palette(), 1);
        lemma_search(self.palette(), limit, color);
        let k = first_slot(self.palette(), limit, color, 0).unwrap();
        lemma_field_round_trip(buffer, index, 1, k as u8);
        lemma_channel(k as u8, 1);
    }

    proof fn lemma_independent(
        &self,
        buffer: Seq<u8>,
        index: int,
        other: int,
        color: Self::ColorType,
    ) {
        let limit = slot_limit(self.palette(), 1);
        if let Some(k) = first_slot(self.palette(), limit, color, 0) {
            lemma_field_round_trip(buffer, index, 1, k as u8);
            lemma_field_independent(buffer, index, other, 1, k as u8);
        }
    }
}

/// 2-bit indexed color format: each color is a 2-bit index into a palette
pub struct IDX2<Buf> {
    colors: Buf,
}

impl<Buf: ColorBuf> IDX2<Buf> {
    /// The palette
    pub closed spec fn palette(&self) -> Buf {
        self.colors
    }

    pub fn new(colors: Buf) -> (r: Self)
        ensures
            r.palette() == colors,
    {
        IDX2 { colors }
    }

    /// Writing a color that no addressable palette slot holds leaves the buffer as it was.
    pub proof fn lemma_unmatched(
        &self,
        buffer: Seq<u8>,
        index: int,
        color: <Buf::ColorFmt as ColorFmt>::ColorType,
    )
        requires
            !self.exact(color),
        ensures
            self.encode(buffer, index, color) == buffer,
    {
        lemma_search(self.palette(), slot_limit(self.palette(), 2), color);
    }
}

impl<Buf: ColorBuf> ColorFmt for IDX2<Buf> {
    type ColorType = <Buf::ColorFmt as ColorFmt>::ColorType;

    open spec fn bits(&self) -> nat {
        2
    }

    proof fn lemma_bits(&self) {
    }

    fn color_bits(&self) -> (b: usize) {
        2
    }

    fn num_colors(&self, buffer: &[u8]) -> (n: usize) {
        buffer.len() * 4
    }
}

impl<Buf: ColorBuf> ColorGet for IDX2<Buf> {
    open spec fn readable(&self, buffer: Seq<u8>, index: int) -> bool {
        &&& in_bounds(buffer.len(), 2, index)
        &&& self.palette().format().readable(
            self.palette().data(),
            field_of(buffer, index, 2) as int,
        )
    }

    open spec fn decode(&self, buffer: Seq<u8>, index: int) -> Self::ColorType {
        palette_color(self.palette(), field_of(buffer, index, 2) as int)
    }

    fn get_color(&self, buffer: &[u8], index: usize) -> (c: Self::ColorType) {
        let color_index = read_field(buffer, index, 2) as usize;
        self.colors.get(color_index)
    }
}

impl<Buf: ColorBuf> ColorSet for IDX2<Buf> {
    open spec fn writable(&self, len: nat, index: int) -> bool {
        in_bounds(len, 2, index) && palette_ready(self.palette(), 2)
    }

    open spec fn encode(&self, buffer: Seq<u8>, index: int, color: Self::ColorType) -> Seq<u8> {
        match first_slot(self.palette(), slot_limit(self.palette(), 2), color, 0) {
            Some(k) => with_field(buffer, index, 2, k as u8),
            None => buffer,
        }
    }

    open spec fn exact(&self, color: Self::ColorType) -> bool {
        in_palette(self.palette(), slot_limit(self.palette(), 2), color)
    }

    fn set_color(&self, buffer: &mut [u8], index: usize, color: Self::ColorType) {
        let ghost colors = self.palette();
        let ghost limit = slot_limit(colors, 2);
        let n = self.colors.len();
        let limit_exec: usize = if n < 4 {
            n
        } else {
            4
        };
        let mut k: usize = 0;
        while k < limit_exec
            invariant
                limit == slot_limit(colors, 2),
                limit_exec == limit,
                k <= limit,
                colors == self.palette(),
                colors == self.colors,
                palette_ready(colors, 2),
                first_slot(colors, limit, color, k as nat) == first_slot(colors, limit, color, 0),
                buffer@ == old(buffer)@,
                in_bounds(buffer@.len(), 2, index as int),
            decreases limit - k,
        {
            if self.colors.get(k).same(&color) {
                write_field(buffer, index, 2, k as u8);
                return;
            }
            k += 1;
        }
    }

    proof fn lemma_writable(&self, buffer: Seq<u8>, index: int, color: Self::ColorType) {
        lemma_field_round_trip(buffer, index, 2, 0);
        let limit = slot_limit(self.palette(), 2);
        lemma_search(self.palette(), limit, color);
        if let Some(k) = first_slot(self.palette(), limit, color, 0) {
            lemma_field_round_trip(buffer, index, 2, k as u8);
        }
    }

    proof fn lemma_round_trip(&self, buffer: Seq<u8>, index: int, color: Self::ColorType) {
        let limit = slot_limit(self.palette(), 2);
        lemma_search(self.palette(), limit, color);
        let k = first_slot(self.palette(), limit, color, 0).unwrap();
        lemma_field_round_trip(buffer, index, 2, k as u8);
        lemma_channel(k as u8, 2);
    }

    proof fn lemma_independent(
        &self,
        buffer: Seq<u8>,
        index: int,
        other: int,
        color: Self::ColorType,
    ) {
        let limit = slot_limit(self.palette(), 2);
        if let Some(k) = first_slot(self.palette(), limit, color, 0) {
            lemma_field_round_trip(buffer, index, 2, k as u8);
            lemma_field_independent(buffer, index, other, 2, k as u8);
        }
    }
}

/// 4-bit indexed color format: each color is a 4-bit index into a palette
pub struct IDX4<Buf> {
    colors: Buf,
}

impl<Buf: ColorBuf> IDX4<Buf> {
    /// The palette
    pub closed spec fn palette(&self) -> Buf {
        self.colors
    }

    pub fn new(colors: Buf) -> (r: Self)
        ensures
            r.palette() == colors,
    {
        IDX4 { colors }
    }

    /// Writing a color that no addressable palette slot holds leaves the buffer as it was.
    pub proof fn lemma_unmatched(
        &self,
        buffer: Seq<u8>,
        index: int,
        color: <Buf::ColorFmt as ColorFmt>::ColorType,
    )
        requires
            !self.exact(color),
        ensures
            self.encode(buffer, index, color) == buffer,
    {
        lemma_search(self.palette(), slot_limit(self.palette(), 4), color);
    }
}

impl<Buf: ColorBuf> ColorFmt for IDX4<Buf> {
    type ColorType = <Buf::ColorFmt as ColorFmt>::ColorType;

    open spec fn bits(&self) -> nat {
        4
    }

    proof fn lemma_bits(&self) {
    }

    fn color_bits(&self) -> (b: usize) {
        4
    }

    fn num_colors(&self, buffer: &[u8]) -> (n: usize) {
        buffer.len() * 2
    }
}

impl<Buf: ColorBuf> ColorGet for IDX4<Buf> {
    open spec fn readable(&self, buffer: Seq<u8>, index: int) -> bool {
        &&& in_bounds(buffer.len(), 4, index)
        &&& self.palette().format().readable(
            self.palette().data(),
            field_of(buffer, index, 4) as int,
        )
    }

    open spec fn decode(&self, buffer: Seq<u8>, index: int) -> Self::ColorType {
        palette_color(self.palette(), field_of(buffer, index, 4) as int)
    }

    fn get_color(&self, buffer: &[u8], index: usize) -> (c: Self::ColorType) {
        let color_index = read_field(buffer, index, 4) as usize;
        self.colors.get(color_index)
    }
}

impl<Buf: ColorBuf> ColorSet for IDX4<Buf> {
    open spec fn writable(&self, len: nat, index: int) -> bool {
        in_bounds(len, 4, index) && palette_ready(self.palette(), 4)
    }

    open spec fn encode(&self, buffer: Seq<u8>, index: int, color: Self::ColorType) -> Seq<u8> {
        match first_slot(self.palette(), slot_limit(self.palette(), 4), color, 0) {
            Some(k) => with_field(buffer, index, 4, k as u8),
            None => buffer,
        }
    }

    open spec fn exact(&self, color: Self::ColorType) -> bool {
        in_palette(self.palette(), slot_limit(self.palette(), 4), color)
    }

    fn set_color(&self, buffer: &mut [u8], index: usize, color: Self::ColorType) {
        let ghost colors = self.palette();
        let ghost limit = slot_limit(colors, 4);
        let n = self.colors.len();
        let limit_exec: usize = if n < 16 {
            n
        } else {
            16
        };
        let mut k: usize = 0;
        while k < limit_exec
            invariant
                limit == slot_limit(colors, 4),
                limit_exec == limit,
                k <= limit,
                colors == self.palette(),
                colors == self.colors,
                palette_ready(colors, 4),
                first_slot(colors, limit, color, k as nat) == first_slot(colors, limit, color, 0),
                buffer@ == old(buffer)@,
                in_bounds(buffer@.len(), 4, index as int),
            decreases limit - k,
        {
            if self.colors.get(k).same(&color) {
                write_field(buffer, index, 4, k as u8);
                return;
            }
            k += 1;
        }
    }

    proof fn lemma_writable(&self, buffer: Seq<u8>, index: int, color: Self::ColorType) {
        lemma_field_round_trip(buffer, index, 4, 0);
        let limit = slot_limit(self.palette(), 4);
        lemma_search(self.palette(), limit, color);
        if let Some(k) = first_slot(self.palette(), limit, color, 0) {
            lemma_field_round_trip(buffer, index, 4, k as u8);
        }
    }

    proof fn lemma_round_trip(&self, buffer: Seq<u8>, index: int, color: Self::ColorType) {
        let limit = slot_limit(self.palette(), 4);
        lemma_search(self.palette(), limit, color);
        let k = first_slot(self.palette(), limit, color, 0).unwrap();
        lemma_field_round_trip(buffer, index, 4, k as u8);
        lemma_channel(k as u8, 4);
    }

    proof fn lemma_independent(
        &self,
        buffer: Seq<u8>,
        index: int,
        other: int,
        color: Self::ColorType,
    ) {
        let limit = slot_limit(self.palette(), 4);
        if let Some(k) = first_slot(self.palette(), limit, color, 0) {
            lemma_field_round_trip(buffer, index, 4, k as u8);
            lemma_field_independent(buffer, index, other, 4, k as u8);
        }
    }
}

/// 8-bit indexed color format: each color is a 8-bit index into a palette
pub struct IDX8<Buf> {
    colors: Buf,
}

impl<Buf: ColorBuf> IDX8<Buf> {
    /// The palette
    pub closed spec fn palette(&self) -> Buf {
        self.colors
    }

    pub fn new(colors: Buf) -> (r: Self)
        ensures
            r.palette() == colors,
    {
        IDX8 { colors }
    }

    /// Writing a color that no addressable palette slot holds leaves the buffer as it was.
    pub proof fn lemma_unmatched(
        &self,
        buffer: Seq<u8>,
        index: int,
        color: <Buf::ColorFmt as ColorFmt>::ColorType,
    )
        requires
            !self.exact(color),
        ensures
            self.encode(buffer, index, color) == buffer,
    {
        lemma_search(self.palette(), slot_limit(self.palette(), 8), color);
    }
}

impl<Buf: ColorBuf> ColorFmt for IDX8<Buf> {
    type ColorType = <Buf::ColorFmt as ColorFmt>::ColorType;

    open spec fn bits(&self) -> nat {
        8
    }

    proof fn lemma_bits(&self) {
    }

    fn color_bits(&self) -> (b: usize) {
        8
    }

    fn num_colors(&self, buffer: &[u8]) -> (n: usize) {
        buffer.len()
    }
}

impl<Buf: ColorBuf> ColorGet for IDX8<Buf> {
    open spec fn readable(&self, buffer: Seq<u8>, index: int) -> bool {
        &&& in_bounds(buffer.len(), 8, index)
        &&& self.palette().format().readable(
            self.palette().data(),
            field_of(buffer, index, 8) as int,
        )
    }

    open spec fn decode(&self, buffer: Seq<u8>, index: int) -> Self::ColorType {
        palette_color(self.palette(), field_of(buffer, index, 8) as int)
    }

    fn get_color(&self, buffer: &[u8], index: usize) -> (c: Self::ColorType) {
        let color_index = read_field(buffer, index, 8) as usize;
        self.colors.get(color_index)
    }
}

impl<Buf: ColorBuf> ColorSet for IDX8<Buf> {
    open spec fn writable(&self, len: nat, index: int) -> bool {
        in_bounds(len, 8, index) && palette_ready(self.palette(), 8)
    }

    open spec fn encode(&self, buffer: Seq<u8>, index: int, color: Self::ColorType) -> Seq<u8> {
        match first_slot(self.palette(), slot_limit(self.palette(), 8), color, 0) {
            Some(k) => with_field(buffer, index, 8, k as u8),
            None => buffer,
        }
    }

    open spec fn exact(&self, color: Self::ColorType) -> bool {
        in_palette(self.palette(), slot_limit(self.palette(), 8), color)
    }

    fn set_color(&self, buffer: &mut [u8], index: usize, color: Self::ColorType) {
        let ghost colors = self.palette();
        let ghost limit = slot_limit(colors, 8);
        let n = self.colors.len();
        let limit_exec: usize = if n < 256 {
            n
        } else {
            256
        };
        let mut k: usize = 0;
        while k < limit_exec
            invariant
                limit == slot_limit(colors, 8),
                limit_exec == limit,
                k <= limit,
                colors == self.palette(),
                colors == self.colors,
                palette_ready(colors, 8),
                first_slot(colors, limit, color, k as nat) == first_slot(colors, limit, color, 0),
                buffer@ == old(buffer)@,
                in_bounds(buffer@.len(), 8, index as int),
            decreases limit - k,
        {
            if self.colors.get(k).same(&color) {
                write_field(buffer, index, 8, k as u8);
                return;
            }
            k += 1;
        }
    }

    proof fn lemma_writable(&self, buffer: Seq<u8>, index: int, color: Self::ColorType) {
        lemma_field_round_trip(buffer, index, 8, 0);
        let limit = slot_limit(self.palette(), 8);
        lemma_search(self.palette(), limit, color);
        if let Some(k) = first_slot(self.palette(), limit, color, 0) {
            lemma_field_round_trip(buffer, index, 8, k as u8);
        }
    }

    proof fn lemma_round_trip(&self, buffer: Seq<u8>, index: int, color: Self::ColorType) {
        let limit = slot_limit(self.palette(), 8);
        lemma_search(self.palette(), limit, color);
        let k = first_slot(self.palette(), limit, color, 0).unwrap();
        lemma_field_round_trip(buffer, index, 8, k as u8);
        lemma_channel(k as u8, 8);
    }

    proof fn lemma_independent(
        &self,
        buffer: Seq<u8>,
        index: int,
        other: int,
        color: Self::ColorType,
    ) {
        let limit = slot_limit(self.palette(), 8);
        if let Some(k) = first_slot(self.palette(), limit, color, 0) {
            lemma_field_round_trip(buffer, index, 8, k as u8);
            lemma_field_independent(buffer, index, other, 8, k as u8);
        }
    }
}

} // verus!
