//! Registry paths in the wide form that the operating system takes.
//!
//! A path is a sequence of UTF-16 code units without a terminator: the
//! terminator is added where the path leaves the program, so a unit of value
//! zero inside a path would cut it short.

use vstd::prelude::*;
use utfx::U16CString;
use crate::error::Error;

verus! {

/// The UTF-16 code units of one character: the code point itself inside the
/// basic plane, a high and a low surrogate above it.
pub open spec fn utf16_of_char(c: char) -> Seq<u16> {
    let code = c as int;
    if code < 0x1_0000 {
        seq![code as u16]
    } else {
        seq![
            (0xD800 + (code - 0x1_0000) / 0x400) as u16,
            (0xDC00 + (code - 0x1_0000) % 0x400) as u16,
        ]
    }
}

/// The UTF-16 encoding of a text.
pub open spec fn utf16(text: Seq<char>) -> Seq<u16>
    decreases text.len(),
{
    if text.len() == 0 {
        Seq::empty()
    } else {
        utf16(text.drop_last()) + utf16_of_char(text.last())
    }
}

/// No unit is a terminator.
pub open spec fn nul_free(units: Seq<u16>) -> bool {
    forall|i: int| 0 <= i < units.len() ==> units[i] != 0
}

/// `at` is the index of the first terminator among `units`.
pub open spec fn is_first_nul(units: Seq<u16>, at: int) -> bool {
    &&& 0 <= at < units.len()
    &&& units[at] == 0
    &&& forall|i: int| 0 <= i < at ==> units[i] != 0
}

/// What encoding `units` must end in: the path with exactly these units if
/// none is a terminator, and otherwise `InvalidNul` with the index of the
/// first terminator.
pub open spec fn encoded_as(units: Seq<u16>, res: Result<EncodedPath, Error>) -> bool {
    match res {
        Ok(path) => nul_free(units) && path@ == units,
        Err(e) => e matches Error::InvalidNul(at) && is_first_nul(units, at as int),
    }
}

/// A path or name in its wide form, free of terminators.
#[derive(Debug, PartialEq, Eq, Hash)]
pub struct EncodedPath {
    units: Vec<u16>,
}

impl View for EncodedPath {
    type V = Seq<u16>;

    closed spec fn view(&self) -> Seq<u16> {
        self.units@
    }
}

/// Calls `utfx::U16CString::from_str` and hands back its outcome as plain
/// values: the units of the new string without its terminator, or the
/// position that the `NulError` reports.
///
/// Trusted: the string is built from the text's UTF-16 encoding if that holds
/// no unit of value zero, and otherwise the call fails with the index of the
/// first such unit.
#[verifier::external_body]
fn wide_from_str(text: &str) -> (res: Result<Vec<u16>, usize>)
    ensures
        match res {
            Ok(units) => nul_free(utf16(text@)) && units@ == utf16(text@),
            Err(at) => is_first_nul(utf16(text@), at as int),
        },
{
    match U16CString::from_str(text) {
        Ok(wide) => Ok(wide.into_vec()),
        Err(e) => Err(e.nul_position()),
    }
}

impl EncodedPath {
    #[verifier::type_invariant]
    spec fn terminator_free(&self) -> bool {
        nul_free(self.units@)
    }

    /// Encodes a text as UTF-16 and scans the units for terminators.
    pub fn from_str(text: &str) -> (res: Result<EncodedPath, Error>)
        ensures
            encoded_as(utf16(text@), res),
    {
        match wide_from_str(text) {
            Ok(units) => Ok(EncodedPath { units }),
            Err(at) => Err(Error::InvalidNul(at)),
        }
    }

    /// Takes units that are already wide, and scans them for terminators.
    pub fn from_units(units: Vec<u16>) -> (res: Result<EncodedPath, Error>)
        ensures
            encoded_as(units@, res),
    {
        let mut i: usize = 0;
        while i < units.len()
            invariant
                i <= units.len(),
                forall|j: int| 0 <= j < i ==> units[j] != 0,
            decreases units.len() - i,
        {
            if units[i] == 0 {
                return Err(Error::InvalidNul(i));
            }
            i += 1;
        }
        Ok(EncodedPath { units })
    }

    /// The units of the path, without a terminator.
    pub fn as_units(&self) -> (units: &Vec<u16>)
        ensures
            units@ == self@,
            nul_free(self@),
    {
        proof {
            use_type_invariant(self);
        }
        &self.units
    }

    /// The number of units.
    pub fn len(&self) -> (n: usize)
        ensures
            n == self@.len(),
    {
        self.units.len()
    }
}

/// A character gives one or two units, and a unit of value zero only if it
/// is the character of code zero.
pub proof fn lemma_utf16_of_char(c: char)
    ensures
        1 <= utf16_of_char(c).len() <= 2,
        c == '\0' ==> utf16_of_char(c) == seq![0u16],
        c != '\0' ==> nul_free(utf16_of_char(c)),
{
    let code = c as int;
    if code >= 0x1_0000 {
        assert(0 <= (code - 0x1_0000) / 0x400 < 0x400);
        assert(0 <= (code - 0x1_0000) % 0x400 < 0x400);
    }
}

/// The encoding of a text that is put together from two parts is put
/// together from the encodings of the parts.
pub proof fn lemma_utf16_concat(head: Seq<char>, tail: Seq<char>)
    ensures
        utf16(head + tail) == utf16(head) + utf16(tail),
    decreases tail.len(),
{
    if tail.len() == 0 {
        assert(head + tail == head);
        assert(utf16(head) + utf16(tail) == utf16(head));
    } else {
        let whole = head + tail;
        assert(whole.drop_last() == head + tail.drop_last());
        assert(whole.last() == tail.last());
        lemma_utf16_concat(head, tail.drop_last());
        assert(utf16(head) + (utf16(tail.drop_last()) + utf16_of_char(tail.last())) == (utf16(head)
            + utf16(tail.drop_last())) + utf16_of_char(tail.last()));
    }
}

/// The encoding of a text is free of terminators exactly if the text does
/// not hold the character of code zero.
pub proof fn lemma_utf16_nul_free(text: Seq<char>)
    ensures
        nul_free(utf16(text)) <==> !text.contains('\0'),
    decreases text.len(),
{
    if text.len() == 0 {
    } else {
        let front = text.drop_last();
        let units = utf16(text);
        lemma_utf16_nul_free(front);
        lemma_utf16_of_char(text.last());
        if text.contains('\0') {
            let k = choose|k: int| 0 <= k < text.len() && text[k] == '\0';
            if k < front.len() {
                assert(front[k] == '\0');
                assert(front.contains('\0'));
                let i = choose|i: int| 0 <= i < utf16(front).len() && utf16(front)[i] == 0;
                assert(units[i] == 0);
            } else {
                assert(units[utf16(front).len() as int] == 0);
            }
        } else {
            assert(!front.contains('\0')) by {
                if front.contains('\0') {
                    let k = choose|k: int| 0 <= k < front.len() && front[k] == '\0';
                    assert(text[k] == '\0');
                }
            }
            assert(text[text.len() - 1] != '\0');
            assert forall|i: int| 0 <= i < units.len() implies units[i] != 0 by {
                if i >= utf16(front).len() {
                    assert(units[i] == utf16_of_char(text.last())[i - utf16(front).len()]);
                }
            }
        }
    }
}

/// Where the first character of code zero stands in a text, the first
/// terminator stands in its encoding: behind the encoding of what precedes.
pub proof fn lemma_utf16_first_nul(text: Seq<char>, at: int)
    requires
        0 <= at < text.len(),
        text[at] == '\0',
        forall|i: int| 0 <= i < at ==> text[i] != '\0',
    ensures
        is_first_nul(utf16(text), utf16(text.take(at)).len() as int),
{
    let head = text.take(at);
    let rest = text.skip(at);
    let tail = rest.drop_first();
    assert(text == head + rest);
    assert(rest == seq!['\0'] + tail);
    lemma_utf16_concat(head, rest);
    lemma_utf16_concat(seq!['\0'], tail);
    assert(utf16(seq!['\0']) == seq![0u16]) by {
        let one = seq!['\0'];
        assert(one.drop_last() == Seq::<char>::empty());
        assert(utf16(one.drop_last()) == Seq::<u16>::empty());
        assert(one.last() == '\0');
        lemma_utf16_of_char('\0');
        assert(Seq::<u16>::empty() + seq![0u16] == seq![0u16]);
    }
    assert(utf16(rest)[0] == 0);
    lemma_utf16_nul_free(head);
    assert(!head.contains('\0')) by {
        if head.contains('\0') {
            let k = choose|k: int| 0 <= k < head.len() && head[k] == '\0';
            assert(text[k] == '\0');
        }
    }
}

/// A text of the basic plane is encoded unit for unit.
pub proof fn lemma_utf16_basic_plane(text: Seq<char>)
    requires
        forall|i: int| 0 <= i < text.len() ==> (text[i] as int) < 0x1_0000,
    ensures
        utf16(text).len() == text.len(),
        forall|i: int| 0 <= i < text.len() ==> utf16(text)[i] == text[i] as u16,
    decreases text.len(),
{
    if text.len() > 0 {
        lemma_utf16_basic_plane(text.drop_last());
    }
}

/// A value that can be brought into the wide form of a path.
pub trait PathSource: Sized {
    /// The wide units that the value stands for.
    spec fn wide_units(&self) -> Seq<u16>;

    /// Encodes the value, or reports the first terminator in it.
    fn into_path(self) -> (res: Result<EncodedPath, Error>)
        ensures
            encoded_as(self.wide_units(), res),
    ;
}

impl<'a> PathSource for &'a str {
    open spec fn wide_units(&self) -> Seq<u16> {
        utf16(self@)
    }

    fn into_path(self) -> (res: Result<EncodedPath, Error>) {
        EncodedPath::from_str(self)
    }
}

impl PathSource for String {
    open spec fn wide_units(&self) -> Seq<u16> {
        utf16(self@)
    }

    fn into_path(self) -> (res: Result<EncodedPath, Error>) {
        EncodedPath::from_str(self.as_str())
    }
}

impl<'a> PathSource for &'a String {
    open spec fn wide_units(&self) -> Seq<u16> {
        utf16(self@)
    }

    fn into_path(self) -> (res: Result<EncodedPath, Error>) {
        EncodedPath::from_str(self.as_str())
    }
}

impl PathSource for Vec<u16> {
    open spec fn wide_units(&self) -> Seq<u16> {
        self@
    }

    fn into_path(self) -> (res: Result<EncodedPath, Error>) {
        EncodedPath::from_units(self)
    }
}

impl PathSource for EncodedPath {
    open spec fn wide_units(&self) -> Seq<u16> {
        self@
    }

    fn into_path(self) -> (res: Result<EncodedPath, Error>) {
        proof {
            use_type_invariant(&self);
        }
        Ok(self)
    }
}

} // verus!
