use vstd::prelude::*;
use crate::font_data::FontChars;

verus! {

/// Whitespace between tokens.
pub open spec fn is_space(c: char) -> bool {
    c == ' ' || c == '\t' || c == '\n' || c == '\r'
}

/// The character that an escape `\c` stands for.
pub open spec fn unescape(c: char) -> Option<char> {
    if c == 'n' {
        Some('\n')
    } else if c == 't' {
        Some('\t')
    } else if c == 'r' {
        Some('\r')
    } else if c == '0' {
        Some('\0')
    } else if c == '\\' || c == '\'' || c == '"' {
        Some(c)
    } else {
        None
    }
}

/// First position from `i` on that holds no whitespace.
pub open spec fn skip_space(s: Seq<char>, i: int) -> int
    decreases s.len() - i,
{
    if 0 <= i < s.len() && is_space(s[i]) {
        skip_space(s, i + 1)
    } else {
        i
    }
}

/// The characters of a string literal whose body starts at `i`, and the
/// position after its closing quote.
pub open spec fn str_body(s: Seq<char>, i: int) -> Option<(Seq<char>, int)>
    decreases s.len() - i,
{
    if i < 0 || i >= s.len() {
        None
    } else if s[i] == '"' {
        Some((Seq::empty(), i + 1))
    } else if s[i] == '\\' {
        if i + 1 < s.len() && unescape(s[i + 1]) is Some {
            match str_body(s, i + 2) {
                Some((rest, j)) => Some((seq![unescape(s[i + 1]).unwrap()] + rest, j)),
                None => None,
            }
        } else {
            None
        }
    } else {
        match str_body(s, i + 1) {
            Some((rest, j)) => Some((seq![s[i]] + rest, j)),
            None => None,
        }
    }
}

/// A string literal at `i`: its characters and the position after it.
pub open spec fn lit_str(s: Seq<char>, i: int) -> Option<(Seq<char>, int)> {
    if 0 <= i < s.len() && s[i] == '"' {
        str_body(s, i + 1)
    } else {
        None
    }
}

/// A character literal at `i`: its character and the position after it.
pub open spec fn lit_char(s: Seq<char>, i: int) -> Option<(char, int)> {
    if 0 <= i && i + 2 < s.len() && s[i] == '\'' && s[i + 1] != '\\' && s[i + 1] != '\'' && s[i
        + 2] == '\'' {
        Some((s[i + 1], i + 3))
    } else if 0 <= i && i + 3 < s.len() && s[i] == '\'' && s[i + 1] == '\\' && unescape(
        s[i + 2],
    ) is Some && s[i + 3] == '\'' {
        Some((unescape(s[i + 2]).unwrap(), i + 4))
    } else {
        None
    }
}

/// A character or a character range at `i`: `'a'`, `'a' ..= 'z'` or `'a' .. 'z'`.
pub open spec fn font_chars(s: Seq<char>, i: int) -> Option<(FontChars, int)> {
    match lit_char(s, i) {
        None => None,
        Some((a, j)) => {
            let k = skip_space(s, j);
            if 0 <= k && k + 2 < s.len() && s[k] == '.' && s[k + 1] == '.' && s[k + 2] == '=' {
                match lit_char(s, skip_space(s, k + 3)) {
                    Some((b, m)) => Some((FontChars::Range(a, b, true), m)),
                    None => None,
                }
            } else if 0 <= k && k + 1 < s.len() && s[k] == '.' && s[k + 1] == '.' {
                match lit_char(s, skip_space(s, k + 2)) {
                    Some((b, m)) => Some((FontChars::Range(a, b, false), m)),
                    None => None,
                }
            } else {
                Some((FontChars::Char(a), j))
            }
        },
    }
}

/// Characters and ranges separated by commas up to the end of the input; a
/// comma may follow the last one.
pub open spec fn chars_list(s: Seq<char>, i: int) -> Option<Seq<FontChars>>
    decreases s.len() - i,
{
    let j = skip_space(s, i);
    if j < i || j >= s.len() {
        if j >= s.len() {
            Some(Seq::empty())
        } else {
            None
        }
    } else {
        match font_chars(s, j) {
            None => None,
            Some((c, k)) => {
                let m = skip_space(s, k);
                if m >= s.len() {
                    Some(seq![c])
                } else if m >= i && s[m] == ',' {
                    match chars_list(s, m + 1) {
                        Some(rest) => Some(seq![c] + rest),
                        None => None,
                    }
                } else {
                    None
                }
            },
        }
    }
}

/// Position after the identifier characters from `i` on.
pub open spec fn ident_end(s: Seq<char>, i: int) -> int
    decreases s.len() - i,
{
    if 0 <= i < s.len() && (s[i] == '_' || ('a' <= s[i] && s[i] <= 'z') || ('A' <= s[i] && s[i]
        <= 'Z') || ('0' <= s[i] && s[i] <= '9')) {
        ident_end(s, i + 1)
    } else {
        i
    }
}

/// An identifier at `i`: its characters and the position after it.
pub open spec fn ident(s: Seq<char>, i: int) -> Option<(Seq<char>, int)> {
    if 0 <= i < s.len() && (s[i] == '_' || ('a' <= s[i] && s[i] <= 'z') || ('A' <= s[i] && s[i]
        <= 'Z')) {
        Some((s.subrange(i, ident_end(s, i)), ident_end(s, i)))
    } else {
        None
    }
}

/// Position after an optional comma at `i`.
pub open spec fn after_comma(s: Seq<char>, i: int) -> int {
    if 0 <= i < s.len() && s[i] == ',' {
        i + 1
    } else {
        i
    }
}

/// Font attribute: the font file path, then the characters to embed.
pub open spec fn attr_of(s: Seq<char>) -> Option<(Seq<char>, Seq<FontChars>)> {
    match lit_str(s, skip_space(s, 0)) {
        None => None,
        Some((path, j)) => match chars_list(s, after_comma(s, skip_space(s, j))) {
            Some(chars) => Some((path, chars)),
            None => None,
        },
    }
}

/// Font parameters: a name, a comma, the font file path, then the characters to embed.
pub open spec fn params_of(s: Seq<char>) -> Option<(Seq<char>, Seq<char>, Seq<FontChars>)> {
    match ident(s, skip_space(s, 0)) {
        None => None,
        Some((name, j)) => {
            let k = skip_space(s, j);
            if 0 <= k < s.len() && s[k] == ',' {
                match lit_str(s, skip_space(s, k + 1)) {
                    None => None,
                    Some((path, m)) => match chars_list(s, after_comma(s, skip_space(s, m))) {
                        Some(chars) => Some((name, path, chars)),
                        None => None,
                    },
                }
            } else {
                None
            }
        },
    }
}

proof fn lemma_skip_space(s: Seq<char>, i: int)
    ensures
        skip_space(s, i) >= i,
        0 <= i ==> skip_space(s, i) <= if i <= s.len() {
            s.len() as int
        } else {
            i
        },
    decreases s.len() - i,
{
    if 0 <= i < s.len() && is_space(s[i]) {
        lemma_skip_space(s, i + 1);
    }
}

fn skip_space_at(s: &[char], i: usize) -> (r: usize)
    requires
        i <= s@.len(),
    ensures
        r == skip_space(s@, i as int),
        i <= r <= s@.len(),
    decreases s@.len() - i,
{
    if i < s.len() && (s[i] == ' ' || s[i] == '\t' || s[i] == '\n' || s[i] == '\r') {
        skip_space_at(s, i + 1)
    } else {
        i
    }
}

fn unescape_char(c: char) -> (r: Option<char>)
    ensures
        r == unescape(c),
{
    if c == 'n' {
        Some('\n')
    } else if c == 't' {
        Some('\t')
    } else if c == 'r' {
        Some('\r')
    } else if c == '0' {
        Some('\0')
    } else if c == '\\' || c == '\'' || c == '"' {
        Some(c)
    } else {
        None
    }
}

fn str_body_at(s: &[char], i: usize) -> (r: Option<(Vec<char>, usize)>)
    requires
        i <= s@.len(),
    ensures
        match (r, str_body(s@, i as int)) {
            (Some((v, j)), Some((w, k))) => v@ == w && j == k && j <= s@.len(),
            (None, None) => true,
            _ => false,
        },
    decreases s@.len() - i,
{
    if i >= s.len() {
        None
    } else if s[i] == '"' {
        Some((Vec::new(), i + 1))
    } else if s[i] == '\\' {
        if i + 1 < s.len() {
            match unescape_char(s[i + 1]) {
                Some(c) => match str_body_at(s, i + 2) {
                    Some((rest, j)) => {
                        let mut v = vec![c];
                        let mut rest = rest;
                        v.append(&mut rest);
                        Some((v, j))
                    },
                    None => None,
                },
                None => None,
            }
        } else {
            None
        }
    } else {
        match str_body_at(s, i + 1) {
            Some((rest, j)) => {
                let mut v = vec![s[i]];
                let mut rest = rest;
                v.append(&mut rest);
                Some((v, j))
            },
            None => None,
        }
    }
}

fn lit_str_at(s: &[char], i: usize) -> (r: Option<(Vec<char>, usize)>)
    requires
        i <= s@.len(),
    ensures
        match (r, lit_str(s@, i as int)) {
            (Some((v, j)), Some((w, k))) => v@ == w && j == k && j <= s@.len(),
            (None, None) => true,
            _ => false,
        },
{
    if i < s.len() && s[i] == '"' {
        str_body_at(s, i + 1)
    } else {
        None
    }
}

fn lit_char_at(s: &[char], i: usize) -> (r: Option<(char, usize)>)
    requires
        i <= s@.len(),
    ensures
        match (r, lit_char(s@, i as int)) {
            (Some((c, j)), Some((d, k))) => c == d && j == k && j <= s@.len(),
            (None, None) => true,
            _ => false,
        },
{
    let n = s.len();
    if n >= 3 && i < n - 2 && s[i] == '\'' && s[i + 1] != '\\' && s[i + 1] != '\'' && s[i + 2]
        == '\'' {
        Some((s[i + 1], i + 3))
    } else if n >= 4 && i < n - 3 && s[i] == '\'' && s[i + 1] == '\\' && s[i + 3] == '\'' {
        match unescape_char(s[i + 2]) {
            Some(c) => Some((c, i + 4)),
            None => None,
        }
    } else {
        None
    }
}

fn font_chars_at(s: &[char], i: usize) -> (r: Option<(FontChars, usize)>)
    requires
        i <= s@.len(),
    ensures
        match (r, font_chars(s@, i as int)) {
            (Some((c, j)), Some((d, k))) => c == d && j == k && i < j <= s@.len(),
            (None, None) => true,
            _ => false,
        },
{
    match lit_char_at(s, i) {
        None => None,
        Some((a, j)) => {
            let k = skip_space_at(s, j);
            let n = s.len();
            if n >= 3 && k < n - 2 && s[k] == '.' && s[k + 1] == '.' && s[k + 2] == '=' {
                match lit_char_at(s, skip_space_at(s, k + 3)) {
                    Some((b, m)) => Some((FontChars::Range(a, b, true), m)),
                    None => None,
                }
            } else if n >= 2 && k < n - 1 && s[k] == '.' && s[k + 1] == '.' {
                match lit_char_at(s, skip_space_at(s, k + 2)) {
                    Some((b, m)) => Some((FontChars::Range(a, b, false), m)),
                    None => None,
                }
            } else {
                Some((FontChars::Char(a), j))
            }
        },
    }
}

fn chars_list_at(s: &[char], i: usize) -> (r: Option<Vec<FontChars>>)
    requires
        i <= s@.len(),
    ensures
        match (r, chars_list(s@, i as int)) {
            (Some(v), Some(w)) => v@ == w,
            (None, None) => true,
            _ => false,
        },
    decreases s@.len() - i,
{
    let j = skip_space_at(s, i);
    if j >= s.len() {
        return Some(Vec::new());
    }
    match font_chars_at(s, j) {
        None => None,
        Some((c, k)) => {
            let m = skip_space_at(s, k);
            if m >= s.len() {
                Some(vec![c])
            } else if s[m] == ',' {
                match chars_list_at(s, m + 1) {
                    Some(rest) => {
                        let mut v = vec![c];
                        let mut rest = rest;
                        v.append(&mut rest);
                        Some(v)
                    },
                    None => None,
                }
            } else {
                None
            }
        },
    }
}

fn ident_end_at(s: &[char], i: usize) -> (r: usize)
    requires
        i <= s@.len(),
    ensures
        r == ident_end(s@, i as int),
        i <= r <= s@.len(),
    decreases s@.len() - i,
{
    if i < s.len() && (s[i] == '_' || ('a' <= s[i] && s[i] <= 'z') || ('A' <= s[i] && s[i] <= 'Z')
        || ('0' <= s[i] && s[i] <= '9')) {
        ident_end_at(s, i + 1)
    } else {
        i
    }
}

fn copy_range(s: &[char], i: usize, j: usize) -> (r: Vec<char>)
    requires
        i <= j <= s@.len(),
    ensures
        r@ == s@.subrange(i as int, j as int),
{
    let mut r: Vec<char> = Vec::new();
    let mut k: usize = i;
    while k < j
        invariant
            i <= k <= j <= s@.len(),
            r@ == s@.subrange(i as int, k as int),
        decreases j - k,
    {
        r.push(s[k]);
        k += 1;
        assert(r@ =~= s@.subrange(i as int, k as int));
    }
    r
}

fn after_comma_at(s: &[char], i: usize) -> (r: usize)
    requires
        i <= s@.len(),
    ensures
        r == after_comma(s@, i as int),
        r <= s@.len(),
{
    if i < s.len() && s[i] == ',' {
        i + 1
    } else {
        i
    }
}

/// Attribute of an embedded font: `"path/to/font.bdf", 'a'..='z', ','`
pub struct FontAttr {
    /// The font file path
    pub path: Vec<char>,
    /// The characters to embed; none embeds every glyph
    pub chars: Vec<FontChars>,
}

impl FontAttr {
    /// Parses the attribute text
    pub fn parse(s: &[char]) -> (r: Option<FontAttr>)
        ensures
            r is None <==> attr_of(s@) is None,
            r matches Some(a) ==> attr_of(s@) == Some((a.path@, a.chars@)),
    {
        match lit_str_at(s, skip_space_at(s, 0)) {
            None => None,
            Some((path, j)) => match chars_list_at(s, after_comma_at(s, skip_space_at(s, j))) {
                Some(chars) => Some(FontAttr { path, chars }),
                None => None,
            },
        }
    }
}

/// Parameters of an embedded font: `name, "path/to/font.bdf", 'a'..='z'`
pub struct FontParams {
    /// The name of the font
    pub name: Vec<char>,
    /// The font file path
    pub path: Vec<char>,
    /// The characters to embed; none embeds every glyph
    pub chrs: Vec<FontChars>,
}

impl FontParams {
    /// Parses the parameter text
    pub fn parse(s: &[char]) -> (r: Option<FontParams>)
        ensures
            r is None <==> params_of(s@) is None,
            r matches Some(p) ==> params_of(s@) == Some((p.name@, p.path@, p.chrs@)),
    {
        let i = skip_space_at(s, 0);
        if i >= s.len() || !(s[i] == '_' || ('a' <= s[i] && s[i] <= 'z') || ('A' <= s[i] && s[i]
            <= 'Z')) {
            return None;
        }
        let j = ident_end_at(s, i);
        let name = copy_range(s, i, j);
        let k = skip_space_at(s, j);
        if k >= s.len() || s[k] != ',' {
            return None;
        }
        match lit_str_at(s, skip_space_at(s, k + 1)) {
            None => None,
            Some((path, m)) => match chars_list_at(s, after_comma_at(s, skip_space_at(s, m))) {
                Some(chrs) => Some(FontParams { name, path, chrs }),
                None => None,
            },
        }
    }
}

/// Characters and ranges separated by commas up to a closing parenthesis; a
/// comma may follow the last one. Gives the list and the position after the
/// parenthesis.
pub open spec fn paren_list(s: Seq<char>, i: int) -> Option<(Seq<FontChars>, int)>
    decreases s.len() - i,
{
    let j = skip_space(s, i);
    if j < i || j >= s.len() {
        None
    } else if s[j] == ')' {
        Some((Seq::empty(), j + 1))
    } else {
        match font_chars(s, j) {
            None => None,
            Some((c, k)) => {
                let m = skip_space(s, k);
                if 0 <= m < s.len() && s[m] == ')' {
                    Some((seq![c], m + 1))
                } else if i <= m < s.len() && s[m] == ',' {
                    match paren_list(s, m + 1) {
                        Some((rest, e)) => Some((seq![c] + rest, e)),
                        None => None,
                    }
                } else {
                    None
                }
            },
        }
    }
}

/// Position after the keyword `word` at `i`, if the identifier there is that word.
pub open spec fn keyword(s: Seq<char>, i: int, word: Seq<char>) -> Option<int> {
    match ident(s, i) {
        Some((w, j)) => if w == word {
            Some(j)
        } else {
            None
        },
        None => None,
    }
}

/// Type of an embedded item
#[derive(Debug, Clone, Copy, PartialEq, Eq, Structural)]
pub enum EmbeddedType {
    Font,
    Image,
}

pub open spec fn pub_word() -> Seq<char> {
    seq!['p', 'u', 'b']
}

pub open spec fn static_word() -> Seq<char> {
    seq!['s', 't', 'a', 't', 'i', 'c']
}

pub open spec fn mut_word() -> Seq<char> {
    seq!['m', 'u', 't']
}

pub open spec fn font_word() -> Seq<char> {
    seq!['F', 'o', 'n', 't']
}

pub open spec fn image_word() -> Seq<char> {
    seq!['I', 'm', 'a', 'g', 'e']
}

/// The value of an embedded item from `i` on, up to its end: `= (chars);`
/// for a font and `= ();` for an image.
pub open spec fn item_value(s: Seq<char>, i: int, ty: EmbeddedType) -> Option<Seq<FontChars>> {
    let j = skip_space(s, i);
    let k = skip_space(s, j + 1);
    if 0 <= j < s.len() && s[j] == '=' && 0 <= k < s.len() && s[k] == '(' {
        let body = match ty {
            EmbeddedType::Font => paren_list(s, k + 1),
            EmbeddedType::Image => {
                let e = skip_space(s, k + 1);
                if 0 <= e < s.len() && s[e] == ')' {
                    Some((Seq::empty(), e + 1))
                } else {
                    None
                }
            },
        };
        match body {
            Some((chars, e)) => {
                let f = skip_space(s, e);
                if 0 <= f < s.len() && s[f] == ';' && skip_space(s, f + 1) == s.len() {
                    Some(chars)
                } else {
                    None
                }
            },
            None => None,
        }
    } else {
        None
    }
}

/// An embedded item: `[pub] static [mut] NAME: Font = (chars);` or
/// `[pub] static [mut] NAME: Image = ();`, giving whether it is public and
/// mutable, its name, its type and its characters.
pub open spec fn item_of(s: Seq<char>) -> Option<(bool, bool, Seq<char>, EmbeddedType, Seq<FontChars>)> {
    let i0 = skip_space(s, 0);
    let public = keyword(s, i0, pub_word()) is Some;
    let i1 = if public {
        skip_space(s, keyword(s, i0, pub_word()).unwrap())
    } else {
        i0
    };
    match keyword(s, i1, static_word()) {
        None => None,
        Some(j) => {
            let i2 = skip_space(s, j);
            let mutable = keyword(s, i2, mut_word()) is Some;
            let i3 = if mutable {
                skip_space(s, keyword(s, i2, mut_word()).unwrap())
            } else {
                i2
            };
            match ident(s, i3) {
                None => None,
                Some((name, k)) => {
                    let c = skip_space(s, k);
                    let t = skip_space(s, c + 1);
                    if 0 <= c < s.len() && s[c] == ':' {
                        let ty = if keyword(s, t, font_word()) is Some {
                            Some((EmbeddedType::Font, keyword(s, t, font_word()).unwrap()))
                        } else if keyword(s, t, image_word()) is Some {
                            Some((EmbeddedType::Image, keyword(s, t, image_word()).unwrap()))
                        } else {
                            None
                        };
                        match ty {
                            Some((ty, e)) => match item_value(s, e, ty) {
                                Some(chars) => Some((public, mutable, name, ty, chars)),
                                None => None,
                            },
                            None => None,
                        }
                    } else {
                        None
                    }
                },
            }
        },
    }
}

fn paren_list_at(s: &[char], i: usize) -> (r: Option<(Vec<FontChars>, usize)>)
    requires
        i <= s@.len(),
    ensures
        match (r, paren_list(s@, i as int)) {
            (Some((v, e)), Some((w, f))) => v@ == w && e == f && e <= s@.len(),
            (None, None) => true,
            _ => false,
        },
    decreases s@.len() - i,
{
    let j = skip_space_at(s, i);
    if j >= s.len() {
        return None;
    }
    if s[j] == ')' {
        return Some((Vec::new(), j + 1));
    }
    match font_chars_at(s, j) {
        None => None,
        Some((c, k)) => {
            let m = skip_space_at(s, k);
            if m < s.len() && s[m] == ')' {
                Some((vec![c], m + 1))
            } else if m < s.len() && s[m] == ',' {
                match paren_list_at(s, m + 1) {
                    Some((rest, e)) => {
                        let mut v = vec![c];
                        let mut rest = rest;
                        v.append(&mut rest);
                        Some((v, e))
                    },
                    None => None,
                }
            } else {
                None
            }
        },
    }
}

fn ident_at(s: &[char], i: usize) -> (r: Option<usize>)
    requires
        i <= s@.len(),
    ensures
        match (r, ident(s@, i as int)) {
            (Some(j), Some((w, k))) => j == k && w == s@.subrange(i as int, j as int) && i < j
                <= s@.len(),
            (None, None) => true,
            _ => false,
        },
{
    if i < s.len() && (s[i] == '_' || ('a' <= s[i] && s[i] <= 'z') || ('A' <= s[i] && s[i] <= 'Z')) {
        Some(ident_end_at(s, i + 1))
    } else {
        None
    }
}

fn keyword_at(s: &[char], i: usize, word: &[char]) -> (r: Option<usize>)
    requires
        i <= s@.len(),
    ensures
        match (r, keyword(s@, i as int, word@)) {
            (Some(j), Some(k)) => j == k && j <= s@.len(),
            (None, None) => true,
            _ => false,
        },
{
    match ident_at(s, i) {
        None => None,
        Some(j) => {
            if j - i != word.len() {
                assert(s@.subrange(i as int, j as int).len() != word@.len());
                return None;
            }
            let mut k: usize = 0;
            while k < word.len()
                invariant
                    i < j <= s@.len(),
                    j - i == word@.len(),
                    keyword(s@, i as int, word@) == (if s@.subrange(i as int, j as int) == word@ {
                        Some(j as int)
                    } else {
                        None
                    }),
                    k <= word@.len(),
                    forall|m: int| 0 <= m < k ==> s@[i + m] == word@[m],
                decreases word@.len() - k,
            {
                if s[i + k] != word[k] {
                    assert(s@.subrange(i as int, j as int)[k as int] == s@[i + k]);
                    assert(s@.subrange(i as int, j as int) != word@);
                    return None;
                }
                k += 1;
            }
            assert(s@.subrange(i as int, j as int) =~= word@);
            Some(j)
        },
    }
}

/// An embedded item: a font with the characters it embeds, or an image
pub struct EmbeddedItem {
    /// Whether the item is `pub`
    pub public: bool,
    /// Whether the item is `static mut`
    pub mutable: bool,
    /// The name of the item
    pub ident: Vec<char>,
    /// The type of the item
    pub ty: EmbeddedType,
    /// The characters a font embeds; none embeds every glyph
    pub chars: Vec<FontChars>,
}

fn item_value_at(s: &[char], i: usize, ty: EmbeddedType) -> (r: Option<Vec<FontChars>>)
    requires
        i <= s@.len(),
    ensures
        match (r, item_value(s@, i as int, ty)) {
            (Some(v), Some(w)) => v@ == w,
            (None, None) => true,
            _ => false,
        },
{
    let j = skip_space_at(s, i);
    if j >= s.len() || s[j] != '=' {
        return None;
    }
    let k = skip_space_at(s, j + 1);
    if k >= s.len() || s[k] != '(' {
        return None;
    }
    let body = match ty {
        EmbeddedType::Font => paren_list_at(s, k + 1),
        EmbeddedType::Image => {
            let e = skip_space_at(s, k + 1);
            if e < s.len() && s[e] == ')' {
                Some((Vec::new(), e + 1))
            } else {
                None
            }
        },
    };
    match body {
        Some((chars, e)) => {
            let f = skip_space_at(s, e);
            if f < s.len() && s[f] == ';' && skip_space_at(s, f + 1) == s.len() {
                Some(chars)
            } else {
                None
            }
        },
        None => None,
    }
}

impl EmbeddedItem {
    /// Parses the item text
    pub fn parse(s: &[char]) -> (r: Option<EmbeddedItem>)
        ensures
            r is None <==> item_of(s@) is None,
            r matches Some(item) ==> item_of(s@) == Some(
                (item.public, item.mutable, item.ident@, item.ty, item.chars@),
            ),
    {
        let i0 = skip_space_at(s, 0);
        let public_end = keyword_at(s, i0, &['p', 'u', 'b']);
        proof {
            assert(seq!['p', 'u', 'b'] =~= pub_word());
        }
        let public = public_end.is_some();
        let i1 = match public_end {
            Some(j) => skip_space_at(s, j),
            None => i0,
        };
        proof {
            assert(seq!['s', 't', 'a', 't', 'i', 'c'] =~= static_word());
        }
        let j = match keyword_at(s, i1, &['s', 't', 'a', 't', 'i', 'c']) {
            Some(j) => j,
            None => return None,
        };
        let i2 = skip_space_at(s, j);
        let mut_end = keyword_at(s, i2, &['m', 'u', 't']);
        proof {
            assert(seq!['m', 'u', 't'] =~= mut_word());
        }
        let mutable = mut_end.is_some();
        let i3 = match mut_end {
            Some(j) => skip_space_at(s, j),
            None => i2,
        };
        let k = match ident_at(s, i3) {
            Some(k) => k,
            None => return None,
        };
        let ident = copy_range(s, i3, k);
        let c = skip_space_at(s, k);
        if c >= s.len() || s[c] != ':' {
            return None;
        }
        let t = skip_space_at(s, c + 1);
        proof {
            assert(seq!['F', 'o', 'n', 't'] =~= font_word());
            assert(seq!['I', 'm', 'a', 'g', 'e'] =~= image_word());
        }
        let (ty, e) = match keyword_at(s, t, &['F', 'o', 'n', 't']) {
            Some(e) => (EmbeddedType::Font, e),
            None => match keyword_at(s, t, &['I', 'm', 'a', 'g', 'e']) {
                Some(e) => (EmbeddedType::Image, e),
                None => return None,
            },
        };
        match item_value_at(s, e, ty) {
            Some(chars) => Some(EmbeddedItem { public, mutable, ident, ty, chars }),
            None => None,
        }
    }
}

} // verus!
