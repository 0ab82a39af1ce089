//! The authored scene document: a whitespace-separated token stream of a
//! header, the vertex count, five hexadecimal `f32` bit patterns per vertex,
//! and the decimal triangle indices.
use vstd::prelude::*;
use super::{VERTEX_COUNT, INDEX_COUNT};

verus! {

/// The ASCII whitespace bytes: space, tab, line feed, form feed and carriage return.
pub open spec fn is_whitespace(byte: u8) -> bool {
    byte == 0x20 || byte == 0x09 || byte == 0x0a || byte == 0x0c || byte == 0x0d
}

/// First position at or after `i` that is not whitespace (or the end).
pub open spec fn skip_whitespace(s: Seq<u8>, i: int) -> int
    decreases s.len() - i,
{
    if i < 0 || i >= s.len() || !is_whitespace(s[i]) {
        i
    } else {
        skip_whitespace(s, i + 1)
    }
}

/// First position at or after `i` that is whitespace (or the end).
pub open spec fn token_end(s: Seq<u8>, i: int) -> int
    decreases s.len() - i,
{
    if i < 0 || i >= s.len() || is_whitespace(s[i]) {
        i
    } else {
        token_end(s, i + 1)
    }
}

pub proof fn lemma_skip_whitespace_bounds(s: Seq<u8>, i: int)
    requires
        0 <= i <= s.len(),
    ensures
        i <= skip_whitespace(s, i) <= s.len(),
        skip_whitespace(s, i) < s.len() ==> !is_whitespace(s[skip_whitespace(s, i)]),
        forall|j: int| i <= j < skip_whitespace(s, i) ==> is_whitespace(#[trigger] s[j]),
    decreases s.len() - i,
{
    if i < s.len() && is_whitespace(s[i]) {
        lemma_skip_whitespace_bounds(s, i + 1);
    }
}

pub proof fn lemma_token_end_bounds(s: Seq<u8>, i: int)
    requires
        0 <= i <= s.len(),
    ensures
        i <= token_end(s, i) <= s.len(),
        i < s.len() && !is_whitespace(s[i]) ==> i < token_end(s, i),
        token_end(s, i) < s.len() ==> is_whitespace(s[token_end(s, i)]),
        forall|j: int| i <= j < token_end(s, i) ==> !is_whitespace(#[trigger] s[j]),
    decreases s.len() - i,
{
    if i < s.len() && !is_whitespace(s[i]) {
        lemma_token_end_bounds(s, i + 1);
    }
}

/// The whitespace-separated tokens of `s` from position `i` on.
pub open spec fn tokens_from(s: Seq<u8>, i: int) -> Seq<Seq<u8>>
    decreases s.len() - i,
{
    if i < 0 || i > s.len() {
        Seq::empty()
    } else {
        let start = skip_whitespace(s, i);
        if start >= s.len() {
            Seq::empty()
        } else {
            let end = token_end(s, start);
            proof {
                lemma_skip_whitespace_bounds(s, i);
                lemma_token_end_bounds(s, start);
            }
            seq![s.subrange(start, end)] + tokens_from(s, end)
        }
    }
}

/// The whitespace-separated tokens of a whole document.
pub open spec fn document_tokens(bytes: Seq<u8>) -> Seq<Seq<u8>> {
    tokens_from(bytes, 0)
}

/// One call of `Tokens::next` on these remaining tokens: the token it hands
/// out, if any, and the tokens left after it.
pub open spec fn next_token(remaining: Seq<Seq<u8>>) -> (Option<Seq<u8>>, Seq<Seq<u8>>) {
    if remaining.len() == 0 {
        (None, remaining)
    } else {
        (Some(remaining[0]), remaining.drop_first())
    }
}

/// What `calls` successive calls of `Tokens::next` hand out, in order,
/// starting from these remaining tokens.
pub open spec fn handed_out(remaining: Seq<Seq<u8>>, calls: nat) -> Seq<Option<Seq<u8>>>
    decreases calls,
{
    if calls == 0 {
        Seq::empty()
    } else {
        seq![next_token(remaining).0] + handed_out(next_token(remaining).1, (calls - 1) as nat)
    }
}

/// A cursor over the whitespace-separated tokens of a byte string.
pub struct Tokens<'a> {
    bytes: &'a [u8],
    cursor: usize,
}

impl<'a> Tokens<'a> {
    /// The bytes being tokenised.
    pub closed spec fn source(&self) -> Seq<u8> {
        self.bytes@
    }

    /// The tokens not yet handed out.
    pub closed spec fn remaining(&self) -> Seq<Seq<u8>> {
        tokens_from(self.bytes@, self.cursor as int)
    }

    pub closed spec fn wf(&self) -> bool {
        self.cursor <= self.bytes@.len()
    }

    pub fn new(bytes: &'a [u8]) -> (tokens: Self)
        ensures
            tokens.wf(),
            tokens.source() == bytes@,
            tokens.remaining() == document_tokens(bytes@),
    {
        Self { bytes, cursor: 0 }
    }

    /// Hand out the next token, if any.
    pub fn next(&mut self) -> (token: Option<&'a [u8]>)
        requires
            old(self).wf(),
        ensures
            final(self).wf(),
            final(self).source() == old(self).source(),
            old(self).remaining().len() == 0 ==> token is None,
            old(self).remaining().len() > 0 ==> token is Some && token->0@ == old(self).remaining()[0],
            final(self).remaining() == if old(self).remaining().len() == 0 {
                old(self).remaining()
            } else {
                old(self).remaining().drop_first()
            },
            next_token(old(self).remaining()) == (
                match token {
                    Some(t) => Some(t@),
                    None => None::<Seq<u8>>,
                },
                final(self).remaining(),
            ),
    {
        let ghost s = self.bytes@;
        let ghost start_cursor = self.cursor as int;
        proof { lemma_skip_whitespace_bounds(s, start_cursor); }
        while self.cursor < self.bytes.len() && is_ascii_whitespace(self.bytes[self.cursor])
            invariant
                self.bytes@ == s,
                start_cursor <= self.cursor <= s.len(),
                skip_whitespace(s, start_cursor) == skip_whitespace(s, self.cursor as int),
            decreases s.len() - self.cursor,
        {
            self.cursor += 1;
        }
        let start = self.cursor;
        proof {
            lemma_skip_whitespace_bounds(s, start as int);
            lemma_token_end_bounds(s, start as int);
        }
        while self.cursor < self.bytes.len() && !is_ascii_whitespace(self.bytes[self.cursor])
            invariant
                self.bytes@ == s,
                start <= self.cursor <= s.len(),
                token_end(s, start as int) == token_end(s, self.cursor as int),
            decreases s.len() - self.cursor,
        {
            self.cursor += 1;
        }
        proof {
            assert(self.cursor == token_end(s, start as int));
            if start as int == s.len() {
                assert(tokens_from(s, self.cursor as int) =~= Seq::<Seq<u8>>::empty());
            }
        }
        if start != self.cursor {
            Some(&self.bytes[start..self.cursor])
        } else {
            None
        }
    }
}

/// `u8::is_ascii_whitespace`: space, tab, line feed, form feed or carriage return.
fn is_ascii_whitespace(byte: u8) -> (r: bool)
    ensures
        r == is_whitespace(byte),
{
    byte == 0x20 || byte == 0x09 || byte == 0x0a || byte == 0x0c || byte == 0x0d
}

pub open spec fn is_decimal_digit(byte: u8) -> bool {
    0x30 <= byte <= 0x39
}

/// The value of a string of decimal digits, most significant first.
pub open spec fn decimal_value(s: Seq<u8>) -> int
    decreases s.len(),
{
    if s.len() == 0 {
        0
    } else {
        decimal_value(s.drop_last()) * 10 + (s.last() - 0x30)
    }
}

/// The `u32` that a token spells in decimal: it is non-empty, all digits,
/// and at most `u32::MAX`.
pub open spec fn decimal_token(s: Seq<u8>) -> Option<u32> {
    if s.len() > 0 && (forall|i: int| 0 <= i < s.len() ==> is_decimal_digit(#[trigger] s[i]))
        && decimal_value(s) <= u32::MAX {
        Some(decimal_value(s) as u32)
    } else {
        None
    }
}

/// The value of a hexadecimal digit (either case), if the byte is one.
pub open spec fn hex_digit(byte: u8) -> Option<int> {
    if 0x30 <= byte <= 0x39 {
        Some(byte - 0x30)
    } else if 0x41 <= byte <= 0x46 {
        Some(byte - 0x41 + 10)
    } else if 0x61 <= byte <= 0x66 {
        Some(byte - 0x61 + 10)
    } else {
        None
    }
}

/// The value of a string of hexadecimal digits, most significant first.
pub open spec fn hex_value(s: Seq<u8>) -> int
    decreases s.len(),
{
    if s.len() == 0 {
        0
    } else {
        hex_value(s.drop_last()) * 16 + hex_digit(s.last())->0
    }
}

/// The bit pattern that a token spells: exactly eight hexadecimal digits.
pub open spec fn hex_bits_token(s: Seq<u8>) -> Option<u32> {
    if s.len() == 8 && (forall|i: int| 0 <= i < s.len() ==> (#[trigger] hex_digit(s[i])) is Some) {
        Some(hex_value(s) as u32)
    } else {
        None
    }
}

proof fn lemma_decimal_nonnegative(s: Seq<u8>)
    requires
        forall|j: int| 0 <= j < s.len() ==> is_decimal_digit(#[trigger] s[j]),
    ensures
        decimal_value(s) >= 0,
    decreases s.len(),
{
    if s.len() > 0 {
        lemma_decimal_nonnegative(s.drop_last());
    }
}

proof fn lemma_decimal_prefix(s: Seq<u8>, i: int)
    requires
        0 <= i < s.len(),
        forall|j: int| 0 <= j <= i ==> is_decimal_digit(#[trigger] s[j]),
    ensures
        decimal_value(s.take(i + 1)) == decimal_value(s.take(i)) * 10 + (s[i] - 0x30),
        decimal_value(s.take(i + 1)) >= decimal_value(s.take(i)),
{
    assert(s.take(i + 1).drop_last() =~= s.take(i));
    lemma_decimal_nonnegative(s.take(i));
}

proof fn lemma_decimal_monotone(s: Seq<u8>, i: int)
    requires
        0 <= i <= s.len(),
        forall|j: int| 0 <= j < s.len() ==> is_decimal_digit(#[trigger] s[j]),
    ensures
        decimal_value(s.take(i)) <= decimal_value(s),
    decreases s.len() - i,
{
    if i < s.len() {
        lemma_decimal_prefix(s, i);
        lemma_decimal_monotone(s, i + 1);
    } else {
        assert(s.take(i) =~= s);
    }
}

proof fn lemma_hex_prefix(s: Seq<u8>, i: int)
    requires
        0 <= i < s.len(),
    ensures
        hex_value(s.take(i + 1)) == hex_value(s.take(i)) * 16 + hex_digit(s[i])->0,
{
    assert(s.take(i + 1).drop_last() =~= s.take(i));
}

/// Parse a decimal `u32` token.
pub fn parse_decimal(token: Option<&[u8]>) -> (value: Option<u32>)
    ensures
        value == match token {
            Some(t) => decimal_token(t@),
            None => None,
        },
{
    let digits = match token {
        Some(t) => t,
        None => return None,
    };
    if digits.len() == 0 {
        return None;
    }
    let ghost s = digits@;
    let mut value: u32 = 0;
    let mut i: usize = 0;
    while i < digits.len()
        invariant
            s == digits@,
            token == Some(digits),
            s.len() > 0,
            i <= s.len(),
            forall|j: int| 0 <= j < i ==> is_decimal_digit(#[trigger] s[j]),
            value as int == decimal_value(s.take(i as int)),
        decreases s.len() - i,
    {
        let digit = digits[i];
        if !(0x30 <= digit && digit <= 0x39) {
            assert(!is_decimal_digit(s[i as int]));
            return None;
        }
        proof { lemma_decimal_prefix(s, i as int); }
        let shifted = match value.checked_mul(10) {
            Some(v) => v,
            None => {
                proof { lemma_overflow_is_final(s, i as int); }
                return None;
            },
        };
        let next = match shifted.checked_add((digit - 0x30) as u32) {
            Some(v) => v,
            None => {
                proof { lemma_overflow_is_final(s, i as int); }
                return None;
            },
        };
        value = next;
        i += 1;
    }
    proof { assert(s.take(s.len() as int) =~= s); }
    Some(value)
}

/// Once a prefix of the digits overflows `u32`, either a later byte is not a
/// digit or the whole token overflows too.
proof fn lemma_overflow_is_final(s: Seq<u8>, i: int)
    requires
        0 <= i < s.len(),
        forall|j: int| 0 <= j <= i ==> is_decimal_digit(#[trigger] s[j]),
        decimal_value(s.take(i + 1)) > u32::MAX,
    ensures
        decimal_token(s) is None,
{
    if forall|j: int| 0 <= j < s.len() ==> is_decimal_digit(#[trigger] s[j]) {
        lemma_decimal_monotone(s, i + 1);
    }
}

/// Parse an eight-digit hexadecimal bit pattern.
pub fn parse_hex_bits(token: Option<&[u8]>) -> (bits: Option<u32>)
    ensures
        bits == match token {
            Some(t) => hex_bits_token(t@),
            None => None,
        },
{
    let digits = match token {
        Some(t) => t,
        None => return None,
    };
    if digits.len() != 8 {
        return None;
    }
    let ghost s = digits@;
    let mut value: u32 = 0;
    let mut i: usize = 0;
    while i < digits.len()
        invariant
            s == digits@,
            token == Some(digits),
            s.len() == 8,
            i <= 8,
            forall|j: int| 0 <= j < i ==> (#[trigger] hex_digit(s[j])) is Some,
            value as int == hex_value(s.take(i as int)),
            value < hex_limit(i as int),
        decreases 8 - i,
    {
        let digit = digits[i];
        let nibble: u8 = if 0x30 <= digit && digit <= 0x39 {
            digit - 0x30
        } else if 0x41 <= digit && digit <= 0x46 {
            digit - 0x41 + 10
        } else if 0x61 <= digit && digit <= 0x66 {
            digit - 0x61 + 10
        } else {
            assert(hex_digit(s[i as int]) is None);
            return None;
        };
        proof {
            lemma_hex_prefix(s, i as int);
            lemma_hex_limit_step(value as int, nibble as int, i as int);
        }
        let shifted = match value.checked_mul(16) {
            Some(v) => v,
            None => return None,
        };
        value = match shifted.checked_add(nibble as u32) {
            Some(v) => v,
            None => return None,
        };
        i += 1;
    }
    proof { assert(s.take(8) =~= s); }
    Some(value)
}

/// Sixteen to the power `n`, for `n` up to eight.
spec fn hex_limit(n: int) -> int {
    if n <= 0 {
        1
    } else if n == 1 {
        0x10
    } else if n == 2 {
        0x100
    } else if n == 3 {
        0x1000
    } else if n == 4 {
        0x1_0000
    } else if n == 5 {
        0x10_0000
    } else if n == 6 {
        0x100_0000
    } else if n == 7 {
        0x1000_0000
    } else {
        0x1_0000_0000
    }
}

proof fn lemma_hex_limit_step(value: int, nibble: int, i: int)
    requires
        0 <= i < 8,
        0 <= value < hex_limit(i),
        0 <= nibble < 16,
    ensures
        value * 16 + nibble < hex_limit(i + 1),
        value * 16 <= u32::MAX,
{
    assert(value * 16 + nibble < hex_limit(i) * 16) by (nonlinear_arith)
        requires
            0 <= value < hex_limit(i),
            0 <= nibble < 16,
    ;
}

/// Why a scene document was refused.
#[derive(Clone, Copy, Debug, PartialEq, Eq, Structural)]
pub enum SceneError {
    Header,
    VertexCount,
    Position,
    Indices,
    TrailingData,
}

impl SceneError {
    /// The human-readable message of each error.
    pub fn message(&self) -> (text: &'static str)
        ensures
            text@ == match self {
                SceneError::Header => "invalid Potato Stamps scene header"@,
                SceneError::VertexCount => "invalid Potato Stamps vertex count"@,
                SceneError::Position => "invalid Potato Stamps position or texture selector"@,
                SceneError::Indices => "invalid Potato Stamps triangle indices"@,
                SceneError::TrailingData => "unexpected Potato Stamps scene data"@,
            },
    {
        match self {
            SceneError::Header => "invalid Potato Stamps scene header",
            SceneError::VertexCount => "invalid Potato Stamps vertex count",
            SceneError::Position => "invalid Potato Stamps position or texture selector",
            SceneError::Indices => "invalid Potato Stamps triangle indices",
            SceneError::TrailingData => "unexpected Potato Stamps scene data",
        }
    }
}

/// The first token of every scene document: ASCII `POTATO-STAMPS/2`.
pub const SCENE_HEADER: [u8; 15] = [
    0x50, 0x4f, 0x54, 0x41, 0x54, 0x4f, 0x2d, 0x53, 0x54, 0x41, 0x4d, 0x50, 0x53, 0x2f, 0x32,
];

/// The token that introduces the triangle indices: ASCII `TRIANGLES`.
pub const TRIANGLES_MARKER: [u8; 9] = [0x54, 0x52, 0x49, 0x41, 0x4e, 0x47, 0x4c, 0x45, 0x53];

/// Number of hexadecimal `f32` tokens per vertex: x, y, z and two texture selectors.
pub const POSITION_COMPONENT_COUNT: usize = 5;

/// The raw IEEE-754 bit patterns of one authored vertex.
#[derive(Clone, Copy, Debug, PartialEq, Eq, Structural)]
pub struct PositionBits {
    pub x: u32,
    pub y: u32,
    pub z: u32,
    pub texture_u: u32,
    pub texture_v: u32,
}

/// A decoded scene document: vertex bit patterns and triangle indices.
#[derive(Clone, Debug, PartialEq, Eq)]
pub struct SceneDocument {
    pub positions: Vec<PositionBits>,
    pub indices: Vec<u32>,
}

/// An `f32` with these bits is finite (neither infinite nor NaN) exactly when
/// its exponent field, bits 23 to 30, is not all ones.
pub open spec fn bits_are_finite(bits: u32) -> bool {
    (bits / 0x80_0000) % 0x100 != 0xff
}

/// `f32::from_bits(bits).is_finite()`, on the bit pattern.
pub fn is_finite_bits(bits: u32) -> (finite: bool)
    ensures
        finite == bits_are_finite(bits),
{
    (bits / 0x80_0000) % 0x100 != 0xff
}

/// Token `k` of the document is a finite hexadecimal `f32`.
pub open spec fn finite_bits_token(t: Seq<Seq<u8>>, k: int) -> bool {
    &&& 0 <= k < t.len()
    &&& hex_bits_token(t[k]) is Some
    &&& bits_are_finite(hex_bits_token(t[k])->0)
}

/// Token `k` of the document is a decimal vertex index below the vertex count.
pub open spec fn vertex_index_token(t: Seq<Seq<u8>>, k: int) -> bool {
    &&& 0 <= k < t.len()
    &&& decimal_token(t[k]) is Some
    &&& decimal_token(t[k])->0 < VERTEX_COUNT
}

/// Position of the first position token, of the `TRIANGLES` marker, of the
/// first index token, and one past the last token of a valid document.
pub open spec fn first_position_token() -> int {
    2
}

pub open spec fn marker_token() -> int {
    2 + POSITION_COMPONENT_COUNT * VERTEX_COUNT
}

pub open spec fn first_index_token() -> int {
    marker_token() + 1
}

pub open spec fn document_token_count() -> int {
    first_index_token() + INDEX_COUNT
}

/// The error a token stream is refused with, checked in document order, or
/// `None` when the document is valid.
pub open spec fn document_error(t: Seq<Seq<u8>>) -> Option<SceneError> {
    if !(t.len() > 0 && t[0] == SCENE_HEADER@) {
        Some(SceneError::Header)
    } else if !(t.len() > 1 && decimal_token(t[1]) == Some(VERTEX_COUNT as u32)) {
        Some(SceneError::VertexCount)
    } else if !(forall|j: int|
        first_position_token() <= j < marker_token() ==> #[trigger] finite_bits_token(t, j)) {
        Some(SceneError::Position)
    } else if !(t.len() > marker_token() && t[marker_token()] == TRIANGLES_MARKER@ && (forall|j: int|
        first_index_token() <= j < document_token_count() ==> #[trigger] vertex_index_token(t, j))) {
        Some(SceneError::Indices)
    } else if t.len() > document_token_count() {
        Some(SceneError::TrailingData)
    } else {
        None
    }
}

/// The vertex bit patterns and indices that a valid token stream spells.
pub open spec fn document_of(t: Seq<Seq<u8>>) -> (Seq<PositionBits>, Seq<u32>) {
    (
        Seq::new(
            VERTEX_COUNT as nat,
            |v: int|
                {
                    let k = first_position_token() + POSITION_COMPONENT_COUNT * v;
                    PositionBits {
                        x: hex_bits_token(t[k])->0,
                        y: hex_bits_token(t[k + 1])->0,
                        z: hex_bits_token(t[k + 2])->0,
                        texture_u: hex_bits_token(t[k + 3])->0,
                        texture_v: hex_bits_token(t[k + 4])->0,
                    }
                },
        ),
        Seq::new(INDEX_COUNT as nat, |i: int| decimal_token(t[first_index_token() + i])->0),
    )
}

/// Whether a token is present and equals `expected`.
fn token_equals(token: Option<&[u8]>, expected: &[u8]) -> (equal: bool)
    ensures
        equal == (token is Some && token->0@ == expected@),
{
    match token {
        None => false,
        Some(t) => {
            if t.len() != expected.len() {
                return false;
            }
            let mut i: usize = 0;
            while i < t.len()
                invariant
                    token == Some(t),
                    t@.len() == expected@.len(),
                    i <= t@.len(),
                    forall|j: int| 0 <= j < i ==> t@[j] == expected@[j],
                decreases t@.len() - i,
            {
                if t[i] != expected[i] {
                    assert(t@[i as int] != expected@[i as int]);
                    return false;
                }
                i += 1;
            }
            assert(t@ =~= expected@);
            true
        },
    }
}

/// Hand out the next token and read it as a hexadecimal bit pattern.
fn read_hex_bits(tokens: &mut Tokens) -> (bits: Option<u32>)
    requires
        old(tokens).wf(),
    ensures
        final(tokens).wf(),
        final(tokens).source() == old(tokens).source(),
        final(tokens).remaining() == if old(tokens).remaining().len() == 0 {
            old(tokens).remaining()
        } else {
            old(tokens).remaining().drop_first()
        },
        bits == if old(tokens).remaining().len() == 0 {
            None
        } else {
            hex_bits_token(old(tokens).remaining()[0])
        },
{
    parse_hex_bits(tokens.next())
}

/// Hand out the next token and read it as a decimal `u32`.
fn read_decimal(tokens: &mut Tokens) -> (value: Option<u32>)
    requires
        old(tokens).wf(),
    ensures
        final(tokens).wf(),
        final(tokens).source() == old(tokens).source(),
        final(tokens).remaining() == if old(tokens).remaining().len() == 0 {
            old(tokens).remaining()
        } else {
            old(tokens).remaining().drop_first()
        },
        value == if old(tokens).remaining().len() == 0 {
            None
        } else {
            decimal_token(old(tokens).remaining()[0])
        },
{
    parse_decimal(tokens.next())
}

/// Read one finite hexadecimal `f32` token, token `k` of `t`.
fn read_finite_component(tokens: &mut Tokens, Ghost(t): Ghost<Seq<Seq<u8>>>, Ghost(k): Ghost<int>) -> (bits: Option<u32>)
    requires
        old(tokens).wf(),
        0 <= k <= t.len(),
        old(tokens).remaining() == t.skip(k),
    ensures
        final(tokens).wf(),
        final(tokens).source() == old(tokens).source(),
        bits is Some ==> k < t.len() && hex_bits_token(t[k]) == bits && finite_bits_token(t, k)
            && final(tokens).remaining() == t.skip(k + 1),
        bits is None ==> !finite_bits_token(t, k),
{
    let bits = read_hex_bits(tokens);
    match bits {
        Some(b) => {
            if !is_finite_bits(b) {
                return None;
            }
            assert(tokens.remaining() =~= t.skip(k + 1));
            Some(b)
        },
        None => None,
    }
}

/// Read the five component tokens of one vertex, tokens `k` to `k + 4` of `t`.
fn read_position(tokens: &mut Tokens, Ghost(t): Ghost<Seq<Seq<u8>>>, Ghost(k): Ghost<int>) -> (position: Option<PositionBits>)
    requires
        old(tokens).wf(),
        0 <= k <= t.len(),
        old(tokens).remaining() == t.skip(k),
    ensures
        final(tokens).wf(),
        final(tokens).source() == old(tokens).source(),
        position is Some ==> k + 5 <= t.len() && final(tokens).remaining() == t.skip(k + 5) && (forall|j: int|
            k <= j < k + 5 ==> #[trigger] finite_bits_token(t, j)) && position->0 == (PositionBits {
            x: hex_bits_token(t[k])->0,
            y: hex_bits_token(t[k + 1])->0,
            z: hex_bits_token(t[k + 2])->0,
            texture_u: hex_bits_token(t[k + 3])->0,
            texture_v: hex_bits_token(t[k + 4])->0,
        }),
        position is None ==> exists|j: int| k <= j < k + 5 && !#[trigger] finite_bits_token(t, j),
{
    let x = match read_finite_component(tokens, Ghost(t), Ghost(k)) {
        Some(bits) => bits,
        None => return None,
    };
    let y = match read_finite_component(tokens, Ghost(t), Ghost(k + 1)) {
        Some(bits) => bits,
        None => return None,
    };
    let z = match read_finite_component(tokens, Ghost(t), Ghost(k + 2)) {
        Some(bits) => bits,
        None => return None,
    };
    let texture_u = match read_finite_component(tokens, Ghost(t), Ghost(k + 3)) {
        Some(bits) => bits,
        None => return None,
    };
    let texture_v = match read_finite_component(tokens, Ghost(t), Ghost(k + 4)) {
        Some(bits) => bits,
        None => return None,
    };
    assert forall|j: int| k <= j < k + 5 implies #[trigger] finite_bits_token(t, j) by {
        if j == k + 1 {
        }
    }
    Some(PositionBits { x, y, z, texture_u, texture_v })
}

/// Validate the bytes of a scene document and decode its vertex bit
/// patterns and triangle indices. (Whether the triangles wind
/// counter-clockwise is a floating-point question left to the caller.)
pub fn decode_scene_document(bytes: &[u8]) -> (result: Result<SceneDocument, SceneError>)
    ensures
        match document_error(document_tokens(bytes@)) {
            Some(error) => result == Err::<SceneDocument, SceneError>(error),
            None => result is Ok && result->Ok_0.positions@ == document_of(document_tokens(bytes@)).0
                && result->Ok_0.indices@ == document_of(document_tokens(bytes@)).1,
        },
{
    let ghost t = document_tokens(bytes@);
    let mut tokens = Tokens::new(bytes);
    if !token_equals(tokens.next(), &SCENE_HEADER) {
        return Err(SceneError::Header);
    }
    let vertex_count = match read_decimal(&mut tokens) {
        Some(count) => count,
        None => return Err(SceneError::VertexCount),
    };
    if vertex_count != VERTEX_COUNT as u32 {
        return Err(SceneError::VertexCount);
    }
    assert(tokens.remaining() =~= t.skip(2));
    let mut positions: Vec<PositionBits> = Vec::new();
    for vertex in 0..VERTEX_COUNT
        invariant
            t == document_tokens(bytes@),
            tokens.wf(),
            2 + 5 * vertex <= t.len(),
            tokens.remaining() == t.skip(2 + 5 * vertex),
            t.len() > 0 && t[0] == SCENE_HEADER@,
            t.len() > 1 && decimal_token(t[1]) == Some(VERTEX_COUNT as u32),
            forall|j: int| 2 <= j < 2 + 5 * vertex ==> #[trigger] finite_bits_token(t, j),
            positions@ =~= document_of(t).0.take(vertex as int),
    {
        let position = match read_position(&mut tokens, Ghost(t), Ghost(2 + 5 * vertex)) {
            Some(position) => position,
            None => return Err(SceneError::Position),
        };
        positions.push(position);
    }
    let marker = tokens.next();
    if !token_equals(marker, &TRIANGLES_MARKER) {
        return Err(SceneError::Indices);
    }
    assert(tokens.remaining() =~= t.skip(63));
    let mut indices: Vec<u32> = Vec::new();
    for slot in 0..INDEX_COUNT
        invariant
            t == document_tokens(bytes@),
            tokens.wf(),
            63 + slot <= t.len(),
            tokens.remaining() == t.skip(63 + slot),
            t.len() > 0 && t[0] == SCENE_HEADER@,
            t.len() > 1 && decimal_token(t[1]) == Some(VERTEX_COUNT as u32),
            forall|j: int| 2 <= j < 62 ==> #[trigger] finite_bits_token(t, j),
            t.len() > 62 && t[62] == TRIANGLES_MARKER@,
            forall|j: int| 63 <= j < 63 + slot ==> #[trigger] vertex_index_token(t, j),
            positions@ == document_of(t).0,
            indices@ =~= document_of(t).1.take(slot as int),
    {
        let index = match read_decimal(&mut tokens) {
            Some(index) => index,
            None => {
                assert(!vertex_index_token(t, 63 + slot));
                return Err(SceneError::Indices);
            },
        };
        if index as usize >= VERTEX_COUNT {
            assert(!vertex_index_token(t, 63 + slot));
            return Err(SceneError::Indices);
        }
        assert(tokens.remaining() =~= t.skip(63 + slot + 1));
        indices.push(index);
    }
    if tokens.next().is_some() {
        return Err(SceneError::TrailingData);
    }
    Ok(SceneDocument { positions, indices })
}

} // verus!
