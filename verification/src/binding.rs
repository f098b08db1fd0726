//! The input-binding text protocol: a binding is a modifier-key mask plus a
//! bounded key token, with parse, format, equality and a total order.
//!
//! The canonical text form is the modifier prefix (`CTRL+`, `SHIFT+`,
//! `CTRL+SHIFT+`, `ANY+`, or nothing) followed by the key token. A
//! well-formed token is non-empty, at most 255 bytes, and contains neither the
//! terminator byte nor `+`, which makes the decomposition unambiguous:
//! formatting a well-formed binding and parsing the text back yields the same
//! binding, and the order is total, transitive and consistent with equality.

use vstd::prelude::*;

use crate::bytes::bytes_clone;
use crate::bytes::bytes_eq;
use crate::text::c_content;
use crate::text::contains_nul;
use crate::text::fixed_buffer;
use crate::text::from_foreign;

verus! {

/// ASCII bytes of the canonical modifier prefixes and their separator.
pub const B_PLUS: u8 = 43;

pub const B_A: u8 = 65;

pub const B_C: u8 = 67;

pub const B_F: u8 = 70;

pub const B_H: u8 = 72;

pub const B_I: u8 = 73;

pub const B_L: u8 = 76;

pub const B_N: u8 = 78;

pub const B_R: u8 = 82;

pub const B_S: u8 = 83;

pub const B_T: u8 = 84;

pub const B_Y: u8 = 89;

/// The modifier-key mask of an input binding.
#[derive(Clone, Copy, Debug, PartialEq, Eq, Structural)]
pub enum InteractionBindModifierKeys {
    /// Matches any modifier state.
    InteractionBindAny,
    /// No modifier held.
    InteractionBindNone,
    /// Control held.
    InteractionBindCtrl,
    /// Shift held.
    InteractionBindShift,
    /// Control and shift held together.
    InteractionBindCtrlShft,
}

/// The raw value each modifier mask crosses the boundary as.
pub open spec fn mod_to_raw_spec(m: InteractionBindModifierKeys) -> u8 {
    match m {
        InteractionBindModifierKeys::InteractionBindAny => 0x80,
        InteractionBindModifierKeys::InteractionBindNone => 0x00,
        InteractionBindModifierKeys::InteractionBindCtrl => 0x01,
        InteractionBindModifierKeys::InteractionBindShift => 0x02,
        InteractionBindModifierKeys::InteractionBindCtrlShft => 0x03,
    }
}

/// The modifier mask a raw value decodes to, if it is recognized.
pub open spec fn mod_from_raw_spec(v: u8) -> Option<InteractionBindModifierKeys> {
    if v == 0x80 {
        Some(InteractionBindModifierKeys::InteractionBindAny)
    } else if v == 0x00 {
        Some(InteractionBindModifierKeys::InteractionBindNone)
    } else if v == 0x01 {
        Some(InteractionBindModifierKeys::InteractionBindCtrl)
    } else if v == 0x02 {
        Some(InteractionBindModifierKeys::InteractionBindShift)
    } else if v == 0x03 {
        Some(InteractionBindModifierKeys::InteractionBindCtrlShft)
    } else {
        None
    }
}

impl InteractionBindModifierKeys {
    /// Encodes the mask for the foreign side.
    pub fn to_raw(&self) -> (r: u8)
        ensures
            r == mod_to_raw_spec(*self),
    {
        match self {
            InteractionBindModifierKeys::InteractionBindAny => 0x80,
            InteractionBindModifierKeys::InteractionBindNone => 0x00,
            InteractionBindModifierKeys::InteractionBindCtrl => 0x01,
            InteractionBindModifierKeys::InteractionBindShift => 0x02,
            InteractionBindModifierKeys::InteractionBindCtrlShft => 0x03,
        }
    }

    /// Decodes a raw foreign value; an unrecognized value is reported rather
    /// than aborted on, since the foreign value space may grow.
    pub fn from_raw(value: u8) -> (r: Option<InteractionBindModifierKeys>)
        ensures
            r == mod_from_raw_spec(value),
    {
        match value {
            0x80 => Some(InteractionBindModifierKeys::InteractionBindAny),
            0x00 => Some(InteractionBindModifierKeys::InteractionBindNone),
            0x01 => Some(InteractionBindModifierKeys::InteractionBindCtrl),
            0x02 => Some(InteractionBindModifierKeys::InteractionBindShift),
            0x03 => Some(InteractionBindModifierKeys::InteractionBindCtrlShft),
            _ => None,
        }
    }
}

/// Raw values decode back to the mask they encode.
pub proof fn lemma_mod_raw_round_trip(m: InteractionBindModifierKeys)
    ensures
        mod_from_raw_spec(mod_to_raw_spec(m)) == Some(m),
{
}

/// Distinct masks have distinct raw values.
pub proof fn lemma_mod_raw_injective(a: InteractionBindModifierKeys, b: InteractionBindModifierKeys)
    requires
        mod_to_raw_spec(a) == mod_to_raw_spec(b),
    ensures
        a == b,
{
}

/// The canonical text prefix of each modifier mask.
pub open spec fn mod_prefix(m: InteractionBindModifierKeys) -> Seq<u8> {
    match m {
        InteractionBindModifierKeys::InteractionBindAny => seq![B_A, B_N, B_Y, B_PLUS],
        InteractionBindModifierKeys::InteractionBindNone => Seq::empty(),
        InteractionBindModifierKeys::InteractionBindCtrl => seq![B_C, B_T, B_R, B_L, B_PLUS],
        InteractionBindModifierKeys::InteractionBindShift => seq![
            B_S,
            B_H,
            B_I,
            B_F,
            B_T,
            B_PLUS,
        ],
        InteractionBindModifierKeys::InteractionBindCtrlShft => seq![
            B_C,
            B_T,
            B_R,
            B_L,
            B_PLUS,
            B_S,
            B_H,
            B_I,
            B_F,
            B_T,
            B_PLUS,
        ],
    }
}

impl InteractionBindModifierKeys {
    /// The canonical text prefix, as bytes.
    pub fn prefix(&self) -> (r: Vec<u8>)
        ensures
            r@ == mod_prefix(*self),
    {
        let mut v: Vec<u8> = Vec::new();
        match self {
            InteractionBindModifierKeys::InteractionBindAny => {
                v.push(B_A);
                v.push(B_N);
                v.push(B_Y);
                v.push(B_PLUS);
            },
            InteractionBindModifierKeys::InteractionBindNone => {},
            InteractionBindModifierKeys::InteractionBindCtrl => {
                v.push(B_C);
                v.push(B_T);
                v.push(B_R);
                v.push(B_L);
                v.push(B_PLUS);
            },
            InteractionBindModifierKeys::InteractionBindShift => {
                v.push(B_S);
                v.push(B_H);
                v.push(B_I);
                v.push(B_F);
                v.push(B_T);
                v.push(B_PLUS);
            },
            InteractionBindModifierKeys::InteractionBindCtrlShft => {
                v.push(B_C);
                v.push(B_T);
                v.push(B_R);
                v.push(B_L);
                v.push(B_PLUS);
                v.push(B_S);
                v.push(B_H);
                v.push(B_I);
                v.push(B_F);
                v.push(B_T);
                v.push(B_PLUS);
            },
        }
        proof {
            assert(v@ =~= mod_prefix(*self));
        }
        v
    }
}

/// A key token that can stand in a binding: non-empty, bounded by the foreign
/// buffer, free of the terminator byte and of the prefix separator `+`.
pub open spec fn valid_key(key: Seq<u8>) -> bool {
    &&& key.len() >= 1
    &&& key.len() <= 255
    &&& forall|i: int| 0 <= i < key.len() ==> key[i] != 0 && key[i] != B_PLUS
}

/// An input-binding value: a modifier mask and a key token.
pub struct InteractionBind {
    /// The modifier mask.
    pub modifier_keys: InteractionBindModifierKeys,
    /// The key token, as bytes.
    pub interaction_key: Vec<u8>,
}

/// Structural equality of bindings: same mask, same token.
pub open spec fn bind_eq(a: InteractionBind, b: InteractionBind) -> bool {
    a.modifier_keys == b.modifier_keys && a.interaction_key@ == b.interaction_key@
}

/// The canonical text of a binding.
pub open spec fn formatted(b: InteractionBind) -> Seq<u8> {
    mod_prefix(b.modifier_keys) + b.interaction_key@
}

/// Whether `s` begins with `p`.
pub open spec fn starts_with(s: Seq<u8>, p: Seq<u8>) -> bool {
    p.len() <= s.len() && s.subrange(0, p.len() as int) == p
}

/// The modifier mask that parsing a text yields: the longest canonical prefix
/// wins; text without one carries no modifier.
pub open spec fn parse_mod_spec(text: Seq<u8>) -> InteractionBindModifierKeys {
    if starts_with(
        text,
        mod_prefix(InteractionBindModifierKeys::InteractionBindCtrlShft),
    ) {
        InteractionBindModifierKeys::InteractionBindCtrlShft
    } else if starts_with(text, mod_prefix(InteractionBindModifierKeys::InteractionBindCtrl)) {
        InteractionBindModifierKeys::InteractionBindCtrl
    } else if starts_with(text, mod_prefix(InteractionBindModifierKeys::InteractionBindShift)) {
        InteractionBindModifierKeys::InteractionBindShift
    } else if starts_with(text, mod_prefix(InteractionBindModifierKeys::InteractionBindAny)) {
        InteractionBindModifierKeys::InteractionBindAny
    } else {
        InteractionBindModifierKeys::InteractionBindNone
    }
}

/// The key token that parsing a text yields: whatever follows the prefix.
pub open spec fn parse_key_spec(text: Seq<u8>) -> Seq<u8> {
    text.skip(mod_prefix(parse_mod_spec(text)).len() as int)
}

/// Why a binding text was rejected.
#[derive(Clone, Copy, Debug, PartialEq, Eq, Structural)]
pub enum BindingParseError {
    /// After the modifier prefix, the remaining key token is empty, too long,
    /// or holds a terminator byte or `+`.
    InvalidKeyToken,
}

impl InteractionBind {
    /// A well-formed binding carries a valid key token.
    pub open spec fn wf(&self) -> bool {
        valid_key(self.interaction_key@)
    }

    /// An equal, independently owned copy.
    pub fn duplicate(&self) -> (r: InteractionBind)
        ensures
            bind_eq(r, *self),
    {
        InteractionBind {
            modifier_keys: self.modifier_keys,
            interaction_key: bytes_clone(self.interaction_key.as_slice()),
        }
    }

    /// Formats the binding in its canonical text form: the modifier prefix
    /// followed by the key token.
    pub fn format(&self) -> (r: Vec<u8>)
        ensures
            r@ == formatted(*self),
    {
        let mut r = self.modifier_keys.prefix();
        let mut i: usize = 0;
        while i < self.interaction_key.len()
            invariant
                i <= self.interaction_key@.len(),
                r@ == mod_prefix(self.modifier_keys) + self.interaction_key@.subrange(0, i as int),
            decreases self.interaction_key@.len() - i,
        {
            r.push(self.interaction_key[i]);
            proof {
                assert(r@ =~= mod_prefix(self.modifier_keys) + self.interaction_key@.subrange(
                    0,
                    i + 1 as int,
                ));
            }
            i += 1;
        }
        proof {
            assert(r@ =~= formatted(*self));
        }
        r
    }

    /// Parses a binding from text: the longest canonical modifier prefix, then
    /// the key token. Rejects text whose remaining token is not a valid key.
    pub fn parse(text: &[u8]) -> (r: Result<InteractionBind, BindingParseError>)
        ensures
            match r {
                Ok(b) => b.wf() && b.modifier_keys == parse_mod_spec(text@)
                    && b.interaction_key@ == parse_key_spec(text@),
                Err(_) => !valid_key(parse_key_spec(text@)),
            },
    {
        let ctrl_shift = InteractionBindModifierKeys::InteractionBindCtrlShft;
        let ctrl = InteractionBindModifierKeys::InteractionBindCtrl;
        let shift = InteractionBindModifierKeys::InteractionBindShift;
        let any = InteractionBindModifierKeys::InteractionBindAny;
        let modifier: InteractionBindModifierKeys = if starts_with_bytes(
            text,
            ctrl_shift.prefix().as_slice(),
        ) {
            ctrl_shift
        } else if starts_with_bytes(text, ctrl.prefix().as_slice()) {
            ctrl
        } else if starts_with_bytes(text, shift.prefix().as_slice()) {
            shift
        } else if starts_with_bytes(text, any.prefix().as_slice()) {
            any
        } else {
            InteractionBindModifierKeys::InteractionBindNone
        };
        proof {
            assert(modifier == parse_mod_spec(text@));
        }
        let plen = modifier.prefix().len();
        let key = bytes_clone(&text[plen..text.len()]);
        proof {
            assert(key@ =~= parse_key_spec(text@));
        }
        if !key_token_valid(key.as_slice()) {
            return Err(BindingParseError::InvalidKeyToken);
        }
        Ok(InteractionBind { modifier_keys: modifier, interaction_key: key })
    }
}

/// Whether a byte slice begins with the given prefix.
pub fn starts_with_bytes(s: &[u8], p: &[u8]) -> (r: bool)
    ensures
        r == starts_with(s@, p@),
{
    if p.len() > s.len() {
        return false;
    }
    bytes_eq(&s[0..p.len()], p)
}

/// Formatting a well-formed binding and parsing the text back yields the
/// binding itself: the canonical decomposition is unambiguous because a valid
/// key token contains no `+`.
pub proof fn lemma_parse_format_round_trip(b: InteractionBind)
    requires
        b.wf(),
    ensures
        parse_mod_spec(formatted(b)) == b.modifier_keys,
        parse_key_spec(formatted(b)) == b.interaction_key@,
{
    let text = formatted(b);
    let key = b.interaction_key@;
    let p = mod_prefix(b.modifier_keys);
    assert(text.subrange(0, p.len() as int) =~= p);
    assert(starts_with(text, p));
    let cs = mod_prefix(InteractionBindModifierKeys::InteractionBindCtrlShft);
    let c = mod_prefix(InteractionBindModifierKeys::InteractionBindCtrl);
    let s = mod_prefix(InteractionBindModifierKeys::InteractionBindShift);
    let a = mod_prefix(InteractionBindModifierKeys::InteractionBindAny);
    match b.modifier_keys {
        InteractionBindModifierKeys::InteractionBindCtrlShft => {
        },
        InteractionBindModifierKeys::InteractionBindCtrl => {
            // `CTRL+` + key cannot begin with `CTRL+SHIFT+`: byte 10 of that
            // longer prefix is `+`, which would have to come from the key.
            if starts_with(text, cs) {
                assert(text[10] == B_PLUS);
                assert(text[10] == key[5]);
                assert(false);
            }
        },
        InteractionBindModifierKeys::InteractionBindShift => {
            if starts_with(text, cs) {
                assert(text[0] == B_C && text[0] == B_S);
            }
            if starts_with(text, c) {
                assert(text[0] == B_C && text[0] == B_S);
            }
        },
        InteractionBindModifierKeys::InteractionBindAny => {
            if starts_with(text, cs) {
                assert(text[0] == B_C && text[0] == B_A);
            }
            if starts_with(text, c) {
                assert(text[0] == B_C && text[0] == B_A);
            }
            if starts_with(text, s) {
                assert(text[0] == B_S && text[0] == B_A);
            }
        },
        InteractionBindModifierKeys::InteractionBindNone => {
            // Bare keys never begin with a canonical prefix: each prefix ends
            // in `+`, which a valid key token cannot contain.
            if starts_with(text, cs) {
                assert(text[10] == B_PLUS && text[10] == key[10]);
            }
            if starts_with(text, c) {
                assert(text[4] == B_PLUS && text[4] == key[4]);
            }
            if starts_with(text, s) {
                assert(text[5] == B_PLUS && text[5] == key[5]);
            }
            if starts_with(text, a) {
                assert(text[3] == B_PLUS && text[3] == key[3]);
            }
        },
    }
    assert(parse_key_spec(text) =~= key);
}

/// Formatting what parsing yielded reassembles the parsed text itself: the
/// canonical representation of an accepted binding text is that very text.
pub proof fn lemma_format_after_parse(text: Seq<u8>)
    ensures
        mod_prefix(parse_mod_spec(text)) + parse_key_spec(text) == text,
{
    let p = mod_prefix(parse_mod_spec(text));
    if parse_mod_spec(text) == InteractionBindModifierKeys::InteractionBindNone {
        assert(text.subrange(0, 0) =~= p);
    }
    assert(starts_with(text, p));
    assert(p + text.skip(p.len() as int) =~= text);
}

/// Strict lexicographic order on byte strings; a proper prefix comes first.
pub open spec fn bytes_lt(a: Seq<u8>, b: Seq<u8>) -> bool
    decreases a.len(),
{
    if b.len() == 0 {
        false
    } else if a.len() == 0 {
        true
    } else if a[0] < b[0] {
        true
    } else if a[0] > b[0] {
        false
    } else {
        bytes_lt(a.skip(1), b.skip(1))
    }
}

/// The lexicographic order is irreflexive.
pub proof fn lemma_bytes_lt_irreflexive(a: Seq<u8>)
    ensures
        !bytes_lt(a, a),
    decreases a.len(),
{
    if a.len() > 0 {
        lemma_bytes_lt_irreflexive(a.skip(1));
    }
}

/// The lexicographic order is transitive.
pub proof fn lemma_bytes_lt_transitive(a: Seq<u8>, b: Seq<u8>, c: Seq<u8>)
    requires
        bytes_lt(a, b),
        bytes_lt(b, c),
    ensures
        bytes_lt(a, c),
    decreases a.len(),
{
    if a.len() > 0 && b.len() > 0 && c.len() > 0 && a[0] == b[0] && b[0] == c[0] {
        lemma_bytes_lt_transitive(a.skip(1), b.skip(1), c.skip(1));
    }
}

/// The lexicographic order is connex: incomparable byte strings are equal.
pub proof fn lemma_bytes_lt_connex(a: Seq<u8>, b: Seq<u8>)
    requires
        !bytes_lt(a, b),
        !bytes_lt(b, a),
    ensures
        a == b,
    decreases a.len(),
{
    if a.len() == 0 || b.len() == 0 {
        assert(a =~= b);
    } else {
        lemma_bytes_lt_connex(a.skip(1), b.skip(1));
        assert(a =~= seq![a[0]] + a.skip(1));
        assert(b =~= seq![b[0]] + b.skip(1));
    }
}

/// The total order on bindings: by the modifier's raw value, then by the key
/// token lexicographically.
pub open spec fn bind_lt(a: InteractionBind, b: InteractionBind) -> bool {
    ||| mod_to_raw_spec(a.modifier_keys) < mod_to_raw_spec(b.modifier_keys)
    ||| (a.modifier_keys == b.modifier_keys && bytes_lt(a.interaction_key@, b.interaction_key@))
}

/// The binding order is transitive.
pub proof fn lemma_bind_order_transitive(a: InteractionBind, b: InteractionBind, c: InteractionBind)
    requires
        bind_lt(a, b),
        bind_lt(b, c),
    ensures
        bind_lt(a, c),
{
    if a.modifier_keys == b.modifier_keys && b.modifier_keys == c.modifier_keys {
        lemma_bytes_lt_transitive(a.interaction_key@, b.interaction_key@, c.interaction_key@);
    }
}

/// The binding order is consistent with equality: two bindings are equal
/// exactly when neither is below the other.
pub proof fn lemma_bind_order_consistent_with_eq(a: InteractionBind, b: InteractionBind)
    ensures
        bind_eq(a, b) <==> (!bind_lt(a, b) && !bind_lt(b, a)),
{
    if bind_eq(a, b) {
        lemma_bytes_lt_irreflexive(a.interaction_key@);
    }
    if !bind_lt(a, b) && !bind_lt(b, a) {
        lemma_mod_raw_injective(a.modifier_keys, b.modifier_keys);
        lemma_bytes_lt_connex(a.interaction_key@, b.interaction_key@);
    }
}

impl InteractionBind {
    /// Whether two bindings denote the same interaction mapping.
    pub fn equals(&self, other: &InteractionBind) -> (r: bool)
        ensures
            r == bind_eq(*self, *other),
    {
        let same_mod = self.modifier_keys.to_raw() == other.modifier_keys.to_raw();
        proof {
            if mod_to_raw_spec(self.modifier_keys) == mod_to_raw_spec(other.modifier_keys) {
                lemma_mod_raw_injective(self.modifier_keys, other.modifier_keys);
            }
        }
        same_mod && bytes_eq(self.interaction_key.as_slice(), other.interaction_key.as_slice())
    }

    /// Whether this binding comes strictly before the other in the canonical
    /// display order.
    pub fn less_than(&self, other: &InteractionBind) -> (r: bool)
        ensures
            r == bind_lt(*self, *other),
    {
        let ra = self.modifier_keys.to_raw();
        let rb = other.modifier_keys.to_raw();
        if ra < rb {
            return true;
        }
        if ra > rb {
            return false;
        }
        proof {
            lemma_mod_raw_injective(self.modifier_keys, other.modifier_keys);
        }
        bytes_lt_exec(self.interaction_key.as_slice(), other.interaction_key.as_slice())
    }
}

/// Compares two byte strings in the lexicographic order.
pub fn bytes_lt_exec(a: &[u8], b: &[u8]) -> (r: bool)
    ensures
        r == bytes_lt(a@, b@),
{
    let mut i: usize = 0;
    proof {
        assert(a@.skip(0) =~= a@);
        assert(b@.skip(0) =~= b@);
    }
    loop
        invariant
            i <= a@.len(),
            i <= b@.len(),
            bytes_lt(a@, b@) == bytes_lt(a@.skip(i as int), b@.skip(i as int)),
        decreases a@.len() - i,
    {
        if i == b.len() {
            return false;
        }
        if i == a.len() {
            return true;
        }
        if a[i] < b[i] {
            return true;
        }
        if a[i] > b[i] {
            return false;
        }
        proof {
            assert(a@.skip(i as int).skip(1) =~= a@.skip(i + 1 as int));
            assert(b@.skip(i as int).skip(1) =~= b@.skip(i + 1 as int));
        }
        i += 1;
    }
}

/// Whether the bytes form a valid key token.
pub fn key_token_valid(key: &[u8]) -> (r: bool)
    ensures
        r == valid_key(key@),
{
    if key.len() < 1 || key.len() > 255 {
        return false;
    }
    let mut i: usize = 0;
    while i < key.len()
        invariant
            i <= key@.len(),
            forall|j: int| 0 <= j < i ==> key@[j] != 0 && key@[j] != B_PLUS,
        decreases key@.len() - i,
    {
        if key[i] == 0 || key[i] == B_PLUS {
            return false;
        }
        i += 1;
    }
    true
}

/// A binding in the fixed-layout form the foreign side exchanges: the
/// modifier's raw value and a 256-byte, null-terminated key buffer.
pub struct RawInteractionBind {
    /// The modifier mask's raw value.
    pub mod_: u32,
    /// The key token, terminated and zero-padded to the foreign buffer size.
    pub inter: Vec<u8>,
}

impl InteractionBind {
    /// Encodes the binding in the foreign fixed layout. The key buffer holds
    /// the token followed by the terminator and padding.
    pub fn to_raw(&self) -> (r: RawInteractionBind)
        requires
            self.wf(),
        ensures
            r.mod_ == mod_to_raw_spec(self.modifier_keys) as u32,
            r.inter@.len() == 256,
            c_content(r.inter@) == self.interaction_key@,
    {
        proof {
            assert(!contains_nul(self.interaction_key@));
        }
        RawInteractionBind {
            mod_: self.modifier_keys.to_raw() as u32,
            inter: fixed_buffer(self.interaction_key.as_slice(), 256),
        }
    }

    /// Decodes a binding from the foreign fixed layout: the key is whatever
    /// precedes the buffer's first terminator; an unrecognized modifier value
    /// is reported, not aborted on.
    pub fn from_raw(raw: &RawInteractionBind) -> (r: Option<InteractionBind>)
        ensures
            match r {
                Some(b) => raw.mod_ <= 255 && Some(b.modifier_keys) == mod_from_raw_spec(
                    raw.mod_ as u8,
                ) && b.interaction_key@ == c_content(raw.inter@),
                None => raw.mod_ > 255 || mod_from_raw_spec(raw.mod_ as u8) is None,
            },
    {
        if raw.mod_ > 255 {
            return None;
        }
        match InteractionBindModifierKeys::from_raw(raw.mod_ as u8) {
            Some(m) => Some(
                InteractionBind {
                    modifier_keys: m,
                    interaction_key: from_foreign(raw.inter.as_slice()),
                },
            ),
            None => None,
        }
    }
}

} // verus!
