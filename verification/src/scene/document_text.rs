//! The whitespace layout of a scene document: how its bytes split into
//! tokens and gaps, and the printed form of a document.
use vstd::prelude::*;
use vstd::arithmetic::div_mod::lemma_fundamental_div_mod;
use super::{VERTEX_COUNT, INDEX_COUNT};
use super::document::{
    is_whitespace, skip_whitespace, token_end, tokens_from, document_tokens,
    lemma_skip_whitespace_bounds, lemma_token_end_bounds, next_token, handed_out, is_decimal_digit, decimal_value,
    decimal_token, hex_digit, hex_value, hex_bits_token, PositionBits, SCENE_HEADER,
    TRIANGLES_MARKER, bits_are_finite, document_error, document_of, marker_token,
    first_index_token, document_token_count,
};

verus! {

/// Every byte of `s` is ASCII whitespace.
pub open spec fn all_whitespace(s: Seq<u8>) -> bool {
    forall|j: int| 0 <= j < s.len() ==> is_whitespace(#[trigger] s[j])
}

/// `s` is a non-empty run of bytes that are not ASCII whitespace.
pub open spec fn is_word(s: Seq<u8>) -> bool {
    s.len() > 0 && forall|j: int| 0 <= j < s.len() ==> !is_whitespace(#[trigger] s[j])
}

/// The bytes `gaps[0] + words[0] + gaps[1] + ... + words[n-1] + gaps[n]`.
pub open spec fn interleave(gaps: Seq<Seq<u8>>, words: Seq<Seq<u8>>) -> Seq<u8>
    decreases words.len(),
{
    if words.len() == 0 {
        gaps[0]
    } else {
        gaps[0] + words[0] + interleave(gaps.drop_first(), words.drop_first())
    }
}

/// `gaps` can separate `words`: one more gap than words, all whitespace,
/// and every gap between two words non-empty (the outer two may be empty).
pub open spec fn separates(gaps: Seq<Seq<u8>>, words: Seq<Seq<u8>>) -> bool {
    &&& gaps.len() == words.len() + 1
    &&& forall|k: int| 0 <= k < gaps.len() ==> all_whitespace(#[trigger] gaps[k])
    &&& forall|k: int| 0 < k < words.len() ==> (#[trigger] gaps[k]).len() > 0
}

proof fn lemma_skip_through_whitespace(s: Seq<u8>, i: int, m: int)
    requires
        0 <= i <= m <= s.len(),
        forall|j: int| i <= j < m ==> is_whitespace(#[trigger] s[j]),
    ensures
        skip_whitespace(s, i) == skip_whitespace(s, m),
    decreases m - i,
{
    if i < m {
        lemma_skip_through_whitespace(s, i + 1, m);
    }
}

proof fn lemma_token_end_through_word(s: Seq<u8>, i: int, m: int)
    requires
        0 <= i <= m <= s.len(),
        forall|j: int| i <= j < m ==> !is_whitespace(#[trigger] s[j]),
        m == s.len() || is_whitespace(s[m]),
    ensures
        token_end(s, i) == m,
    decreases m - i,
{
    if i < m {
        lemma_token_end_through_word(s, i + 1, m);
    }
}

/// Scanning `c + b` from inside `b` is scanning `b`.
proof fn lemma_scan_suffix(c: Seq<u8>, b: Seq<u8>, j: int)
    requires
        0 <= j <= b.len(),
    ensures
        skip_whitespace(c + b, c.len() + j) == c.len() + skip_whitespace(b, j),
        token_end(c + b, c.len() + j) == c.len() + token_end(b, j),
    decreases b.len() - j,
{
    let s = c + b;
    if j < b.len() {
        assert(s[c.len() + j] == b[j]);
        lemma_scan_suffix(c, b, j + 1);
    }
}

/// The tokens of `c + b` from inside `b` are the tokens of `b`.
proof fn lemma_tokens_of_suffix(c: Seq<u8>, b: Seq<u8>, j: int)
    requires
        0 <= j <= b.len(),
    ensures
        tokens_from(c + b, c.len() + j) == tokens_from(b, j),
    decreases b.len() - j,
{
    let s = c + b;
    lemma_scan_suffix(c, b, j);
    lemma_skip_whitespace_bounds(b, j);
    let start = skip_whitespace(b, j);
    if start < b.len() {
        lemma_scan_suffix(c, b, start);
        lemma_token_end_bounds(b, start);
        let end = token_end(b, start);
        assert(s.subrange(c.len() + start, c.len() + end) =~= b.subrange(start, end));
        lemma_tokens_of_suffix(c, b, end);
    }
}

/// Two positions that skip to the same place have the same tokens.
proof fn lemma_tokens_from_same_start(s: Seq<u8>, i: int, k: int)
    requires
        0 <= i <= k <= s.len(),
        skip_whitespace(s, i) == skip_whitespace(s, k),
    ensures
        tokens_from(s, i) == tokens_from(s, k),
{
}

/// Leading whitespace adds no token.
proof fn lemma_tokens_after_whitespace(gap: Seq<u8>, rest: Seq<u8>)
    requires
        all_whitespace(gap),
    ensures
        document_tokens(gap + rest) == document_tokens(rest),
{
    let s = gap + rest;
    assert forall|j: int| 0 <= j < gap.len() implies is_whitespace(#[trigger] s[j]) by {
        assert(s[j] == gap[j]);
    }
    lemma_skip_through_whitespace(s, 0, gap.len() as int);
    lemma_tokens_from_same_start(s, 0, gap.len() as int);
    lemma_tokens_of_suffix(gap, rest, 0);
}

/// A word followed by nothing or by whitespace is the first token.
proof fn lemma_tokens_after_word(word: Seq<u8>, rest: Seq<u8>)
    requires
        is_word(word),
        rest.len() == 0 || is_whitespace(rest[0]),
    ensures
        document_tokens(word + rest) == seq![word] + document_tokens(rest),
{
    let s = word + rest;
    assert(s[0] == word[0]);
    assert forall|j: int| 0 <= j < word.len() implies !is_whitespace(#[trigger] s[j]) by {
        assert(s[j] == word[j]);
    }
    if rest.len() > 0 {
        assert(s[word.len() as int] == rest[0]);
    }
    lemma_token_end_through_word(s, 0, word.len() as int);
    assert(s.subrange(0, word.len() as int) =~= word);
    lemma_tokens_of_suffix(word, rest, 0);
}

/// The tokens of words separated by whitespace gaps are those words, however
/// long the gaps are and whether or not whitespace surrounds them.
pub proof fn law_interleaved_words_are_the_tokens(gaps: Seq<Seq<u8>>, words: Seq<Seq<u8>>)
    requires
        separates(gaps, words),
        forall|k: int| 0 <= k < words.len() ==> is_word(#[trigger] words[k]),
    ensures
        document_tokens(interleave(gaps, words)) == words,
    decreases words.len(),
{
    assert(all_whitespace(gaps[0]));
    if words.len() == 0 {
        lemma_tokens_after_whitespace(gaps[0], Seq::empty());
        assert(gaps[0] + Seq::<u8>::empty() =~= gaps[0]);
        assert(document_tokens(Seq::<u8>::empty()) =~= Seq::<Seq<u8>>::empty());
    } else {
        let later_gaps = gaps.drop_first();
        let later_words = words.drop_first();
        assert(separates(later_gaps, later_words)) by {
            assert forall|k: int| 0 <= k < later_gaps.len() implies all_whitespace(
                #[trigger] later_gaps[k],
            ) by {
                assert(later_gaps[k] == gaps[k + 1]);
            }
            assert forall|k: int| 0 < k < later_words.len() implies (#[trigger] later_gaps[k]).len() > 0 by {
                assert(later_gaps[k] == gaps[k + 1]);
            }
        }
        assert forall|k: int| 0 <= k < later_words.len() implies is_word(#[trigger] later_words[k]) by {
            assert(later_words[k] == words[k + 1]);
        }
        law_interleaved_words_are_the_tokens(later_gaps, later_words);
        let rest = interleave(later_gaps, later_words);
        if rest.len() > 0 {
            if later_words.len() == 0 {
                assert(all_whitespace(later_gaps[0]));
            } else {
                assert(gaps[1].len() > 0);
                assert(all_whitespace(later_gaps[0]));
                assert(rest[0] == later_gaps[0][0]);
            }
        }
        assert(is_word(words[0]));
        lemma_tokens_after_word(words[0], rest);
        lemma_tokens_after_whitespace(gaps[0], words[0] + rest);
        assert(gaps[0] + words[0] + rest =~= gaps[0] + (words[0] + rest));
        assert(seq![words[0]] + later_words =~= words);
    }
}

/// The whitespace runs of `s` from position `i` on: the run before each
/// token and the run after the last one.
pub open spec fn gaps_from(s: Seq<u8>, i: int) -> Seq<Seq<u8>>
    decreases s.len() - i,
{
    if i < 0 || i > s.len() {
        seq![Seq::empty()]
    } else {
        let start = skip_whitespace(s, i);
        if start >= s.len() {
            seq![s.subrange(i, s.len() as int)]
        } else {
            let end = token_end(s, start);
            proof {
                lemma_skip_whitespace_bounds(s, i);
                lemma_token_end_bounds(s, start);
            }
            seq![s.subrange(i, start)] + gaps_from(s, end)
        }
    }
}

/// The whitespace runs of a whole document, around and between its tokens.
pub open spec fn document_gaps(bytes: Seq<u8>) -> Seq<Seq<u8>> {
    gaps_from(bytes, 0)
}

proof fn lemma_layout_from(s: Seq<u8>, i: int)
    requires
        0 <= i <= s.len(),
    ensures
        separates(gaps_from(s, i), tokens_from(s, i)),
        forall|k: int| 0 <= k < tokens_from(s, i).len() ==> is_word(#[trigger] tokens_from(s, i)[k]),
        s.subrange(i, s.len() as int) == interleave(gaps_from(s, i), tokens_from(s, i)),
    decreases s.len() - i,
{
    lemma_skip_whitespace_bounds(s, i);
    let start = skip_whitespace(s, i);
    let gap = s.subrange(i, start);
    assert(all_whitespace(gap)) by {
        assert forall|j: int| 0 <= j < gap.len() implies is_whitespace(#[trigger] gap[j]) by {
            assert(gap[j] == s[i + j]);
        }
    }
    if start >= s.len() {
        let gaps = gaps_from(s, i);
        assert(gaps =~= seq![gap]);
        assert(tokens_from(s, i) =~= Seq::<Seq<u8>>::empty());
    } else {
        lemma_token_end_bounds(s, start);
        let end = token_end(s, start);
        let word = s.subrange(start, end);
        lemma_layout_from(s, end);
        let later_gaps = gaps_from(s, end);
        let later_words = tokens_from(s, end);
        let gaps = gaps_from(s, i);
        let words = tokens_from(s, i);
        assert(gaps == seq![gap] + later_gaps);
        assert(words == seq![word] + later_words);
        assert(gaps.drop_first() =~= later_gaps);
        assert(words.drop_first() =~= later_words);
        assert(is_word(word)) by {
            assert forall|j: int| 0 <= j < word.len() implies !is_whitespace(#[trigger] word[j]) by {
                assert(word[j] == s[start + j]);
            }
        }
        assert forall|k: int| 0 <= k < words.len() implies is_word(#[trigger] words[k]) by {
            if k > 0 {
                assert(words[k] == later_words[k - 1]);
            }
        }
        assert forall|k: int| 0 <= k < gaps.len() implies all_whitespace(#[trigger] gaps[k]) by {
            if k > 0 {
                assert(gaps[k] == later_gaps[k - 1]);
            }
        }
        assert forall|k: int| 0 < k < words.len() implies (#[trigger] gaps[k]).len() > 0 by {
            assert(gaps[k] == later_gaps[k - 1]);
            if k == 1 {
                lemma_skip_whitespace_bounds(s, end);
                assert(skip_whitespace(s, end) < s.len());
                assert(end < s.len());
                assert(is_whitespace(s[end]));
                assert(skip_whitespace(s, end) > end);
            }
        }
        assert(s.subrange(i, s.len() as int) =~= gap + word + s.subrange(end, s.len() as int));
    }
}

/// Every document is its tokens, each a non-empty run of non-whitespace
/// bytes, separated by whitespace runs: the tokens are exactly the maximal
/// non-whitespace runs of the bytes, in order.
pub proof fn law_document_is_its_tokens_and_gaps(bytes: Seq<u8>)
    ensures
        separates(document_gaps(bytes), document_tokens(bytes)),
        forall|k: int|
            0 <= k < document_tokens(bytes).len() ==> is_word(#[trigger] document_tokens(bytes)[k]),
        bytes == interleave(document_gaps(bytes), document_tokens(bytes)),
{
    lemma_layout_from(bytes, 0);
    assert(bytes.subrange(0, bytes.len() as int) =~= bytes);
}

/// Replacing the whitespace runs of a document by any other runs (non-empty
/// between tokens, possibly empty at either end) leaves its tokens, and so
/// what `decode_scene_document` returns, unchanged.
pub proof fn law_whitespace_layout_does_not_change_tokens(bytes: Seq<u8>, gaps: Seq<Seq<u8>>)
    requires
        separates(gaps, document_tokens(bytes)),
    ensures
        document_tokens(interleave(gaps, document_tokens(bytes))) == document_tokens(bytes),
{
    law_document_is_its_tokens_and_gaps(bytes);
    law_interleaved_words_are_the_tokens(gaps, document_tokens(bytes));
}

/// The uppercase hexadecimal digit of a nibble.
pub open spec fn hex_digit_text(nibble: int) -> u8 {
    if nibble < 10 {
        (0x30 + nibble) as u8
    } else {
        (0x37 + nibble) as u8
    }
}

/// `16` to the power `n`.
pub open spec fn pow16(n: nat) -> nat
    decreases n,
{
    if n == 0 {
        1
    } else {
        16 * pow16((n - 1) as nat)
    }
}

/// The last `n` hexadecimal digits of `value`, uppercase, most significant first.
pub open spec fn hex_digits_text(value: nat, n: nat) -> Seq<u8>
    decreases n,
{
    if n == 0 {
        Seq::empty()
    } else {
        hex_digits_text(value / 16, (n - 1) as nat).push(hex_digit_text((value % 16) as int))
    }
}

/// A bit pattern printed as eight uppercase hexadecimal digits (`{:08X}`).
pub open spec fn hex_text(bits: u32) -> Seq<u8> {
    hex_digits_text(bits as nat, 8)
}

/// A number printed in decimal, without leading zeros (`{}`).
pub open spec fn decimal_text(value: nat) -> Seq<u8>
    decreases value,
{
    if value < 10 {
        seq![(0x30 + value) as u8]
    } else {
        decimal_text(value / 10).push((0x30 + value % 10) as u8)
    }
}

proof fn lemma_hex_digits_text(value: nat, n: nat)
    requires
        value < pow16(n),
    ensures
        hex_digits_text(value, n).len() == n,
        forall|i: int| 0 <= i < n ==> (#[trigger] hex_digit(hex_digits_text(value, n)[i])) is Some,
        forall|i: int| 0 <= i < n ==> !is_whitespace(#[trigger] hex_digits_text(value, n)[i]),
        hex_value(hex_digits_text(value, n)) == value,
    decreases n,
{
    if n > 0 {
        lemma_fundamental_div_mod(value as int, 16);
        let high = value / 16;
        lemma_hex_digits_text(high, (n - 1) as nat);
        let prefix = hex_digits_text(high, (n - 1) as nat);
        let s = hex_digits_text(value, n);
        assert(s.drop_last() =~= prefix);
        assert forall|i: int| 0 <= i < n implies (#[trigger] hex_digit(s[i])) is Some
            && !is_whitespace(s[i]) by {
            if i < n - 1 {
                assert(s[i] == prefix[i]);
                assert(hex_digit(prefix[i]) is Some);
                assert(!is_whitespace(prefix[i]));
            }
        }
        assert forall|i: int| 0 <= i < n implies !is_whitespace(#[trigger] s[i]) by {
            assert(hex_digit(s[i]) is Some);
        }
    }
}

/// The eight digits of `hex_text(bits)` read back as `bits`.
proof fn lemma_hex_text_reads_back(bits: u32)
    ensures
        hex_bits_token(hex_text(bits)) == Some(bits),
        is_word(hex_text(bits)),
{
    assert(pow16(8) == 0x1_0000_0000) by {
        reveal_with_fuel(pow16, 9);
    }
    lemma_hex_digits_text(bits as nat, 8);
}

proof fn lemma_decimal_text(value: nat)
    ensures
        decimal_text(value).len() > 0,
        forall|i: int|
            0 <= i < decimal_text(value).len() ==> is_decimal_digit(#[trigger] decimal_text(value)[i]),
        decimal_value(decimal_text(value)) == value,
    decreases value,
{
    let s = decimal_text(value);
    if value < 10 {
        assert(s.drop_last() =~= Seq::<u8>::empty());
        assert(decimal_value(s.drop_last()) == 0);
        assert(s.last() - 0x30 == value);
    } else {
        lemma_fundamental_div_mod(value as int, 10);
        lemma_decimal_text(value / 10);
        let prefix = decimal_text(value / 10);
        assert(s.drop_last() =~= prefix);
        assert(s.last() - 0x30 == value % 10);
        assert(decimal_value(s) == decimal_value(prefix) * 10 + value % 10);
        assert forall|i: int| 0 <= i < s.len() implies is_decimal_digit(#[trigger] s[i]) by {
            if i < s.len() - 1 {
                assert(s[i] == prefix[i]);
            }
        }
    }
}

/// A number printed in decimal reads back as itself.
proof fn lemma_decimal_text_reads_back(value: u32)
    ensures
        decimal_token(decimal_text(value as nat)) == Some(value),
        is_word(decimal_text(value as nat)),
{
    let s = decimal_text(value as nat);
    lemma_decimal_text(value as nat);
    assert forall|i: int| 0 <= i < s.len() implies !is_whitespace(#[trigger] s[i]) by {
        assert(is_decimal_digit(s[i]));
    }
}

/// Component `c` of a vertex: x, y, z, then the two texture selectors.
pub open spec fn component_bits(position: PositionBits, c: int) -> u32 {
    if c == 0 {
        position.x
    } else if c == 1 {
        position.y
    } else if c == 2 {
        position.z
    } else if c == 3 {
        position.texture_u
    } else {
        position.texture_v
    }
}

/// All five components of a vertex are finite `f32` bit patterns.
pub open spec fn position_is_finite(position: PositionBits) -> bool {
    forall|c: int| 0 <= c < 5 ==> bits_are_finite(#[trigger] component_bits(position, c))
}

/// The tokens of the printed document of these vertices and indices: the
/// header, the vertex count, each component in order as `{:08X}` of its
/// bits, the `TRIANGLES` marker, then each index in decimal.
pub open spec fn printed_words(positions: Seq<PositionBits>, indices: Seq<u32>) -> Seq<Seq<u8>> {
    Seq::new(
        document_token_count() as nat,
        |k: int|
            if k == 0 {
                SCENE_HEADER@
            } else if k == 1 {
                decimal_text(VERTEX_COUNT as nat)
            } else if k < marker_token() {
                hex_text(component_bits(positions[(k - 2) / 5], (k - 2) % 5))
            } else if k == marker_token() {
                TRIANGLES_MARKER@
            } else {
                decimal_text(indices[k - first_index_token()] as nat)
            },
    )
}

/// `n` words joined by single spaces, with nothing before or after.
pub open spec fn single_spaces(n: nat) -> Seq<Seq<u8>> {
    Seq::new(n + 1, |k: int| if 0 < k < n { seq![0x20u8] } else { Seq::empty() })
}

/// The printed document: its words joined by single spaces.
pub open spec fn printed_document(positions: Seq<PositionBits>, indices: Seq<u32>) -> Seq<u8> {
    interleave(single_spaces(document_token_count() as nat), printed_words(positions, indices))
}

/// A scene printed as text (header, vertex count, every component as the
/// eight uppercase hexadecimal digits of its bits, `TRIANGLES`, every index
/// in decimal, separated by single spaces) is a valid document whose tokens
/// are those words, and which decodes to the same bit patterns and indices:
/// `decode_scene_document` on those bytes returns them.
pub proof fn law_printed_document_decodes_to_itself(positions: Seq<PositionBits>, indices: Seq<u32>)
    requires
        positions.len() == VERTEX_COUNT,
        indices.len() == INDEX_COUNT,
        forall|v: int| 0 <= v < positions.len() ==> position_is_finite(#[trigger] positions[v]),
        forall|i: int| 0 <= i < indices.len() ==> #[trigger] indices[i] < VERTEX_COUNT,
    ensures
        document_tokens(printed_document(positions, indices)) == printed_words(positions, indices),
        document_error(printed_words(positions, indices)) is None,
        document_of(printed_words(positions, indices)) == (positions, indices),
{
    let words = printed_words(positions, indices);
    let gaps = single_spaces(document_token_count() as nat);
    assert(marker_token() == 62);
    assert(first_index_token() == 63);
    assert(document_token_count() == 75);
    lemma_decimal_text_reads_back(12);
    assert forall|k: int| 0 <= k < words.len() implies is_word(#[trigger] words[k]) by {
        if k == 0 {
            assert(SCENE_HEADER@.len() == 15);
            assert forall|j: int| 0 <= j < 15 implies !is_whitespace(#[trigger] SCENE_HEADER@[j]) by {
                assert(0x2d <= SCENE_HEADER@[j] <= 0x54);
            }
        } else if k == 1 {
        } else if k < 62 {
            lemma_hex_text_reads_back(component_bits(positions[(k - 2) / 5], (k - 2) % 5));
        } else if k == 62 {
            assert(TRIANGLES_MARKER@.len() == 9);
            assert forall|j: int| 0 <= j < 9 implies !is_whitespace(#[trigger] TRIANGLES_MARKER@[j]) by {
                assert(0x41 <= TRIANGLES_MARKER@[j] <= 0x54);
            }
        } else {
            lemma_decimal_text_reads_back(indices[k - 63]);
        }
    }
    assert(separates(gaps, words)) by {
        assert forall|k: int| 0 <= k < gaps.len() implies all_whitespace(#[trigger] gaps[k]) by {
            if 0 < k < 75 {
                assert(gaps[k] == seq![0x20u8]);
            }
        }
    }
    law_interleaved_words_are_the_tokens(gaps, words);
    assert forall|j: int| 2 <= j < 62 implies hex_bits_token(#[trigger] words[j]) == Some(
        component_bits(positions[(j - 2) / 5], (j - 2) % 5),
    ) && bits_are_finite(component_bits(positions[(j - 2) / 5], (j - 2) % 5)) by {
        let v = (j - 2) / 5;
        let c = (j - 2) % 5;
        lemma_hex_text_reads_back(component_bits(positions[v], c));
        assert(position_is_finite(positions[v]));
    }
    assert forall|j: int| 63 <= j < 75 implies decimal_token(#[trigger] words[j]) == Some(
        indices[j - 63],
    ) by {
        lemma_decimal_text_reads_back(indices[j - 63]);
    }
    assert(document_error(words) is None);
    let decoded = document_of(words);
    assert forall|v: int| 0 <= v < 12 implies #[trigger] decoded.0[v] == positions[v] by {
        assert((5 * v) / 5 == v && (5 * v) % 5 == 0) by (nonlinear_arith);
        assert((5 * v + 1) / 5 == v && (5 * v + 1) % 5 == 1) by (nonlinear_arith);
        assert((5 * v + 2) / 5 == v && (5 * v + 2) % 5 == 2) by (nonlinear_arith);
        assert((5 * v + 3) / 5 == v && (5 * v + 3) % 5 == 3) by (nonlinear_arith);
        assert((5 * v + 4) / 5 == v && (5 * v + 4) % 5 == 4) by (nonlinear_arith);
        let k = 2 + 5 * v;
        assert(hex_bits_token(words[k]) == Some(positions[v].x));
        assert(hex_bits_token(words[k + 1]) == Some(positions[v].y));
        assert(hex_bits_token(words[k + 2]) == Some(positions[v].z));
        assert(hex_bits_token(words[k + 3]) == Some(positions[v].texture_u));
        assert(hex_bits_token(words[k + 4]) == Some(positions[v].texture_v));
    }
    assert(decoded.0 =~= positions);
    assert(decoded.1 =~= indices);
}

proof fn lemma_handed_out(remaining: Seq<Seq<u8>>, calls: nat)
    ensures
        handed_out(remaining, calls).len() == calls,
        forall|i: int|
            0 <= i < calls ==> #[trigger] handed_out(remaining, calls)[i] == if i < remaining.len() {
                Some(remaining[i])
            } else {
                None
            },
    decreases calls,
{
    if calls > 0 {
        let rest = next_token(remaining).1;
        lemma_handed_out(rest, (calls - 1) as nat);
        let out = handed_out(remaining, calls);
        assert forall|i: int| 0 <= i < calls implies #[trigger] out[i] == if i < remaining.len() {
            Some(remaining[i])
        } else {
            None
        } by {
            if i > 0 {
                assert(out[i] == handed_out(rest, (calls - 1) as nat)[i - 1]);
            }
        }
    }
}

/// Successive calls of `Tokens::next` on `Tokens::new(bytes)`: call `i`
/// hands out the `i`-th maximal run of non-whitespace bytes of `bytes`
/// while there is one, and `None` on every call after the last run. The
/// runs are non-empty, hold no whitespace, and with the whitespace runs
/// between them make up `bytes`.
pub proof fn law_calls_of_next_hand_out_the_runs(bytes: Seq<u8>, calls: nat)
    ensures
        handed_out(document_tokens(bytes), calls).len() == calls,
        forall|i: int|
            0 <= i < calls ==> #[trigger] handed_out(document_tokens(bytes), calls)[i] == if i
                < document_tokens(bytes).len() {
                Some(document_tokens(bytes)[i])
            } else {
                None
            },
        forall|k: int|
            0 <= k < document_tokens(bytes).len() ==> is_word(#[trigger] document_tokens(bytes)[k]),
        separates(document_gaps(bytes), document_tokens(bytes)),
        bytes == interleave(document_gaps(bytes), document_tokens(bytes)),
{
    law_document_is_its_tokens_and_gaps(bytes);
    lemma_handed_out(document_tokens(bytes), calls);
}

} // verus!
