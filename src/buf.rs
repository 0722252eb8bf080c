use vstd::prelude::*;
use crate::def::{color_count, in_bounds, ColorFmt, ColorGet, ColorSet};

verus! {

/// A color format bound to the bytes it reads
pub trait ColorBuf {
    /// The format of the colors in the buffer
    type ColorFmt: ColorGet;

    /// The format of the colors
    spec fn format(&self) -> Self::ColorFmt;

    /// The bytes holding the colors
    spec fn data(&self) -> Seq<u8>;

    /// Number of colors in buffer
    fn len(&self) -> (n: usize)
        requires
            self.data().len() * 8 <= usize::MAX,
        ensures
            n == color_count(self.data().len(), self.format().bits()),
    ;

    /// Get color from buffer by index
    fn get(&self, index: usize) -> (c: <Self::ColorFmt as ColorFmt>::ColorType)
        requires
            self.format().readable(self.data(), index as int),
        ensures
            c == self.format().decode(self.data(), index as int),
    ;
}

/// A color buffer whose colors can be written
pub trait ColorBufMut: ColorBuf where Self::ColorFmt: ColorSet {
    /// Set color in buffer by index
    fn set(&mut self, index: usize, color: <Self::ColorFmt as ColorFmt>::ColorType)
        requires
            (*old(self)).format().writable((*old(self)).data().len(), index as int),
        ensures
            (*final(self)).format() == (*old(self)).format(),
            (*final(self)).data() == (*old(self)).format().encode(
                (*old(self)).data(),
                index as int,
                color,
            ),
    ;
}

impl<'a, Fmt: ColorGet> ColorBuf for (Fmt, &'a [u8]) {
    type ColorFmt = Fmt;

    open spec fn format(&self) -> Fmt {
        self.0
    }

    open spec fn data(&self) -> Seq<u8> {
        self.1@
    }

    fn len(&self) -> (n: usize) {
        self.0.num_colors(self.1)
    }

    fn get(&self, index: usize) -> (c: Fmt::ColorType) {
        self.0.get_color(self.1, index)
    }
}

impl<Fmt: ColorGet> ColorBuf for (Fmt, Vec<u8>) {
    type ColorFmt = Fmt;

    open spec fn format(&self) -> Fmt {
        self.0
    }

    open spec fn data(&self) -> Seq<u8> {
        self.1@
    }

    fn len(&self) -> (n: usize) {
        self.0.num_colors(self.1.as_slice())
    }

    fn get(&self, index: usize) -> (c: Fmt::ColorType) {
        self.0.get_color(self.1.as_slice(), index)
    }
}

impl<Fmt: ColorSet> ColorBufMut for (Fmt, Vec<u8>) {
    fn set(&mut self, index: usize, color: Fmt::ColorType) {
        self.0.set_color(self.1.as_mut_slice(), index, color)
    }
}

/// Bytes needed for `len` colors of `bits` bits each: `ceil(len * bits / 8)`.
pub open spec fn bytes_for(len: nat, bits: nat) -> nat {
    (len * bits + 7) / 8
}

/// The bytes after colors `0 .. n` have all been set to `color`, in order.
pub open spec fn filled<Fmt: ColorSet>(
    format: Fmt,
    data: Seq<u8>,
    n: nat,
    color: Fmt::ColorType,
) -> Seq<u8>
    decreases n,
{
    if n == 0 {
        data
    } else {
        format.encode(filled(format, data, (n - 1) as nat, color), n - 1, color)
    }
}

pub proof fn lemma_bytes_for(len: nat, bits: nat)
    requires
        1 <= bits,
    ensures
        color_count(bytes_for(len, bits), bits) >= len,
{
    let bytes = bytes_for(len, bits);
    assert(bytes * 8 >= len * bits);
    assert(bytes * 8 / bits >= len * bits / bits) by {
        vstd::arithmetic::div_mod::lemma_div_is_ordered((len * bits) as int, (bytes * 8) as int, bits as int);
    }
    assert(len * bits / bits == len) by {
        vstd::arithmetic::div_mod::lemma_div_by_multiple(len as int, bits as int);
    }
}

/// Fixed-capacity buffer for colors: holds `ceil(n * bits / 8)` bytes for `n` colors
pub struct ColorArray<Fmt> {
    format: Fmt,
    data: Vec<u8>,
}

impl<Fmt: ColorSet> ColorArray<Fmt> {
    /// Create a buffer for `len` colors of `format` with all bytes zero
    pub fn new_with_format(format: Fmt, len: usize) -> (r: Self)
        requires
            len * format.bits() + 7 <= usize::MAX,
        ensures
            r.format() == format,
            r.data().len() == bytes_for(len as nat, format.bits()),
            r.data().len() * 8 <= usize::MAX,
            color_count(r.data().len(), format.bits()) >= len,
            forall|i: int| 0 <= i < r.data().len() ==> r.data()[i] == 0,
    {
        proof {
            format.lemma_bits();
            lemma_bytes_for(len as nat, format.bits());
        }
        let bits = format.color_bits();
        let bytes = (len * bits + 7) / 8;
        let mut data: Vec<u8> = Vec::with_capacity(bytes);
        let mut i: usize = 0;
        while i < bytes
            invariant
                i <= bytes,
                data@.len() == i,
                forall|j: int| 0 <= j < i ==> data@[j] == 0,
            decreases bytes - i,
        {
            data.push(0);
            i += 1;
        }
        ColorArray { format, data }
    }

    /// Create a buffer for `len` colors of `format`, each set to `color`
    pub fn new(format: Fmt, len: usize, color: Fmt::ColorType) -> (r: Self)
        requires
            len * format.bits() + 7 <= usize::MAX,
            forall|i: int|
                0 <= i < color_count(bytes_for(len as nat, format.bits()), format.bits())
                    ==> format.writable(bytes_for(len as nat, format.bits()), i),
        ensures
            r.format() == format,
            r.data().len() == bytes_for(len as nat, format.bits()),
            color_count(r.data().len(), format.bits()) >= len,
            format.exact(color) ==> forall|i: int|
                in_bounds(r.data().len(), format.bits(), i) ==> format.decode(r.data(), i)
                    == color,
    {
        let mut r = ColorArray::new_with_format(format, len);
        r.fill(color);
        r
    }

    /// The bytes holding the colors
    pub fn as_bytes(&self) -> (r: &[u8])
        ensures
            r@ == self.data(),
    {
        self.data.as_slice()
    }

    /// Sets every color of the buffer to `color`, from the first to the last
    pub fn fill(&mut self, color: Fmt::ColorType)
        requires
            (*old(self)).data().len() * 8 <= usize::MAX,
            forall|i: int|
                in_bounds((*old(self)).data().len(), (*old(self)).format().bits(), i)
                    ==> (*old(self)).format().writable((*old(self)).data().len(), i),
        ensures
            (*final(self)).format() == (*old(self)).format(),
            (*final(self)).data() == filled(
                (*old(self)).format(),
                (*old(self)).data(),
                color_count((*old(self)).data().len(), (*old(self)).format().bits()),
                color,
            ),
            (*final(self)).data().len() == (*old(self)).data().len(),
            (*old(self)).format().exact(color) ==> forall|i: int|
                in_bounds((*old(self)).data().len(), (*old(self)).format().bits(), i)
                    ==> (*old(self)).format().decode((*final(self)).data(), i) == color,
    {
        let n = self.format.num_colors(self.data.as_slice());
        let ghost data0 = self.data@;
        assert(self.format() == self.format && self.data() == data0);
        let mut i: usize = 0;
        while i < n
            invariant
                self.format == old(self).format,
                n == color_count(data0.len(), self.format.bits()),
                i <= n,
                self.data@ == filled(self.format, data0, i as nat, color),
                self.data@.len() == data0.len(),
                data0 == old(self).data@,
                forall|k: int|
                    in_bounds(data0.len(), self.format.bits(), k) ==> self.format.writable(
                        data0.len(),
                        k,
                    ),
                self.format.exact(color) ==> forall|k: int|
                    0 <= k < i ==> self.format.decode(self.data@, k) == color,
            decreases n - i,
        {
            proof {
                let cur = self.data@;
                self.format.lemma_writable(cur, i as int, color);
                if self.format.exact(color) {
                    self.format.lemma_round_trip(cur, i as int, color);
                    assert forall|k: int| 0 <= k < i + 1 implies self.format.decode(
                        self.format.encode(cur, i as int, color),
                        k,
                    ) == color by {
                        if k < i {
                            self.format.lemma_independent(cur, i as int, k, color);
                        }
                    }
                }
            }
            self.format.set_color(self.data.as_mut_slice(), i, color);
            i += 1;
        }
    }
}

impl<Fmt: ColorGet> ColorBuf for ColorArray<Fmt> {
    type ColorFmt = Fmt;

    closed spec fn format(&self) -> Fmt {
        self.format
    }

    closed spec fn data(&self) -> Seq<u8> {
        self.data@
    }

    fn len(&self) -> (n: usize) {
        self.format.num_colors(self.data.as_slice())
    }

    fn get(&self, index: usize) -> (c: Fmt::ColorType) {
        self.format.get_color(self.data.as_slice(), index)
    }
}

impl<Fmt: ColorSet> ColorBufMut for ColorArray<Fmt> {
    fn set(&mut self, index: usize, color: Fmt::ColorType) {
        self.format.set_color(self.data.as_mut_slice(), index, color)
    }
}

impl<'a, Fmt: ColorGet> ColorBuf for &'a mut ColorArray<Fmt> {
    type ColorFmt = Fmt;

    open spec fn format(&self) -> Fmt {
        (**self).format()
    }

    open spec fn data(&self) -> Seq<u8> {
        (**self).data()
    }

    fn len(&self) -> (n: usize) {
        (**self).len()
    }

    fn get(&self, index: usize) -> (c: Fmt::ColorType) {
        (**self).get(index)
    }
}

impl<'a, Fmt: ColorSet> ColorBufMut for &'a mut ColorArray<Fmt> {
    fn set(&mut self, index: usize, color: Fmt::ColorType) {
        (**self).set(index, color)
    }
}

} // verus!
