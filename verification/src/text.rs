//! String marshaling across the foreign boundary.
//!
//! Host text travels to the foreign side as a null-terminated byte buffer.
//! Outbound, [`to_foreign`] refuses text that embeds the terminator byte, since
//! such text cannot be represented. Inbound there are two ownership modes,
//! kept apart as distinct types and operations rather than a flag:
//!
//! * *copy-only*: the foreign pointer is read and left untouched; see
//!   [`from_foreign`], which takes a borrowed buffer;
//! * *owned-by-callee*: the foreign string was allocated for us and must be
//!   passed to its release function exactly once, after copying and never
//!   twice; see [`OwnedForeignText`], whose consuming [`OwnedForeignText::take`]
//!   makes the copy and the single release one indivisible step, so a second
//!   release or a use after release cannot even be written.

use vstd::prelude::*;

use crate::bytes::bytes_clone;

verus! {

/// Errors reported by the marshaling layer.
#[derive(Clone, Copy, Debug, PartialEq, Eq, Structural)]
pub enum MarshalError {
    /// Outbound text embeds the terminator byte and has no foreign form.
    EmbeddedTerminator,
}

/// Whether a byte sequence contains the terminator byte.
pub open spec fn contains_nul(s: Seq<u8>) -> bool {
    exists|i: int| 0 <= i < s.len() && s[i] == 0
}

/// The content a foreign reader sees in a buffer: the bytes up to (and
/// excluding) the first terminator, or all of them if none occurs.
pub open spec fn c_content(s: Seq<u8>) -> Seq<u8>
    decreases s.len(),
{
    if s.len() == 0 {
        Seq::empty()
    } else if s[0] == 0 {
        Seq::empty()
    } else {
        seq![s[0]] + c_content(s.skip(1))
    }
}

/// `c_content` of a buffer is the prefix before its first terminator: if the
/// first `i` bytes are non-zero and byte `i` (when present) is zero, the
/// content is exactly those first `i` bytes.
pub proof fn lemma_c_content_prefix(s: Seq<u8>, i: int)
    requires
        0 <= i <= s.len(),
        forall|j: int| 0 <= j < i ==> s[j] != 0,
        i < s.len() ==> s[i] == 0,
    ensures
        c_content(s) == s.subrange(0, i),
    decreases i,
{
    if i == 0 {
        assert(c_content(s) =~= s.subrange(0, 0));
    } else {
        lemma_c_content_prefix(s.skip(1), i - 1);
        assert(c_content(s) =~= s.subrange(0, i));
    }
}

/// Round trip of outbound marshaling: a text free of terminator bytes,
/// followed by the terminator, reads back as exactly that text.
pub proof fn lemma_text_round_trip(t: Seq<u8>)
    requires
        !contains_nul(t),
    ensures
        c_content(t + seq![0u8]) == t,
{
    let s = t + seq![0u8];
    assert(forall|j: int| 0 <= j < t.len() ==> s[j] != 0);
    lemma_c_content_prefix(s, t.len() as int);
    assert(s.subrange(0, t.len() as int) =~= t);
}

/// A host-owned, null-terminated byte buffer ready to be handed to a foreign
/// call. Its one terminator is the final byte.
pub struct ForeignText {
    bytes: Vec<u8>,
}

impl ForeignText {
    /// The buffer is non-empty, ends in the terminator, and holds no
    /// terminator before the end.
    pub closed spec fn wf(&self) -> bool {
        &&& self.bytes@.len() >= 1
        &&& self.bytes@[self.bytes@.len() - 1] == 0
        &&& forall|j: int| 0 <= j < self.bytes@.len() - 1 ==> self.bytes@[j] != 0
    }

    /// The text the buffer carries: everything before the terminator.
    pub closed spec fn content(&self) -> Seq<u8> {
        self.bytes@.subrange(0, self.bytes@.len() - 1)
    }

    /// The raw buffer, as a foreign call would receive it.
    pub fn as_buffer(&self) -> (r: &Vec<u8>)
        ensures
            self.wf() ==> r@ == self.content() + seq![0u8],
    {
        proof {
            if self.wf() {
                assert(self.bytes@ =~= self.content() + seq![0u8]);
            }
        }
        &self.bytes
    }
}

/// Marshals host text outbound: fails with [`MarshalError::EmbeddedTerminator`]
/// if the text contains the terminator byte (no foreign call can then be
/// made); otherwise yields the terminated buffer carrying exactly the text.
pub fn to_foreign(text: &[u8]) -> (r: Result<ForeignText, MarshalError>)
    ensures
        match r {
            Ok(f) => !contains_nul(text@) && f.wf() && f.content() == text@,
            Err(e) => contains_nul(text@) && e == MarshalError::EmbeddedTerminator,
        },
{
    let mut i: usize = 0;
    while i < text.len()
        invariant
            i <= text.len(),
            forall|j: int| 0 <= j < i ==> text@[j] != 0,
        decreases text.len() - i,
    {
        if text[i] == 0 {
            return Err(MarshalError::EmbeddedTerminator);
        }
        i += 1;
    }
    let mut bytes = bytes_clone(text);
    bytes.push(0);
    let f = ForeignText { bytes };
    proof {
        assert(f.content() =~= text@);
    }
    Ok(f)
}

/// Inbound marshaling, copy-only mode: reads a borrowed foreign buffer and
/// copies the bytes before its first terminator; the buffer itself is left
/// untouched and stays with its owner.
pub fn from_foreign(buf: &[u8]) -> (r: Vec<u8>)
    ensures
        r@ == c_content(buf@),
{
    let i = find_terminator(buf);
    proof {
        lemma_c_content_prefix(buf@, i as int);
    }
    bytes_clone(&buf[0..i])
}

/// Scans for the first terminator byte, as a foreign reader would; yields the
/// buffer's length if none occurs.
fn find_terminator(buf: &[u8]) -> (i: usize)
    ensures
        i <= buf@.len(),
        forall|j: int| 0 <= j < i ==> buf@[j] != 0,
        i < buf@.len() ==> buf@[i as int] == 0,
{
    let mut i: usize = 0;
    while i < buf.len()
        invariant
            i <= buf.len(),
            forall|j: int| 0 <= j < i ==> buf@[j] != 0,
        decreases buf.len() - i,
    {
        if buf[i] == 0 {
            return i;
        }
        i += 1;
    }
    i
}

/// Lays text out in a fixed-size foreign buffer: the content first, then zero
/// padding up to the buffer's length. With terminator-free content the buffer
/// reads back as exactly the content.
pub fn fixed_buffer(content: &[u8], n: usize) -> (r: Vec<u8>)
    requires
        content@.len() < n,
    ensures
        r@.len() == n,
        r@.subrange(0, content@.len() as int) == content@,
        forall|j: int| content@.len() <= j < n ==> r@[j] == 0,
        !contains_nul(content@) ==> c_content(r@) == content@,
{
    let mut r = bytes_clone(content);
    while r.len() < n
        invariant
            content@.len() <= r@.len() <= n,
            r@.subrange(0, content@.len() as int) =~= content@,
            forall|j: int| content@.len() <= j < r@.len() ==> r@[j] == 0,
        decreases n - r@.len(),
    {
        r.push(0);
    }
    proof {
        if !contains_nul(content@) {
            let l = content@.len() as int;
            assert(forall|j: int| 0 <= j < l ==> r@.subrange(0, l)[j] == r@[j]);
            assert(forall|j: int| 0 <= j < l ==> r@[j] != 0);
            lemma_c_content_prefix(r@, l);
        }
    }
    r
}

/// The text a nullable foreign string field carries: its content, or empty
/// for a null pointer.
pub open spec fn opt_content(f: Option<Vec<u8>>) -> Seq<u8> {
    match f {
        Option::None => Seq::empty(),
        Option::Some(v) => c_content(v@),
    }
}

/// Copies a nullable foreign string field: a null pointer reads as empty, any
/// other as the bytes before its first terminator.
pub fn opt_text(f: &Option<Vec<u8>>) -> (r: Vec<u8>)
    ensures
        r@ == opt_content(*f),
{
    match f {
        Option::None => Vec::new(),
        Option::Some(v) => from_foreign(v.as_slice()),
    }
}

/// A foreign-allocated string whose ownership was transferred to this layer:
/// the matching release function must be applied exactly once, after the
/// content has been copied out, never before and never twice.
pub struct OwnedForeignText {
    buf: Vec<u8>,
}

impl OwnedForeignText {
    /// The buffer as handed over by the foreign side.
    pub closed spec fn buffer(&self) -> Seq<u8> {
        self.buf@
    }

    /// Adopts a foreign buffer whose release is now this layer's duty.
    pub fn adopt(buf: Vec<u8>) -> (r: OwnedForeignText)
        ensures
            r.buffer() == buf@,
    {
        OwnedForeignText { buf }
    }

    /// Copies the content out and releases the foreign buffer, as one
    /// indivisible step. Consuming `self` is what makes the release happen
    /// exactly once and only after the copy: no second call and no later read
    /// of the buffer can be written.
    pub fn take(self) -> (r: Vec<u8>)
        ensures
            r@ == c_content(self.buffer()),
    {
        from_foreign(self.buf.as_slice())
    }
}

} // verus!
