use vstd::prelude::*;

use crate::error::PostError;

verus! {

pub open spec fn is_digit(c: char) -> bool {
    '0' <= c && c <= '9'
}

pub open spec fn all_digits(s: Seq<char>) -> bool {
    forall|i: int| 0 <= i < s.len() ==> is_digit(#[trigger] s[i])
}

/// The number that a string of decimal digits denotes.
pub open spec fn digits_value(s: Seq<char>) -> int
    decreases s.len(),
{
    if s.len() == 0 {
        0
    } else {
        digits_value(s.drop_last()) * 10 + (s.last() as int - '0' as int)
    }
}

/// Whether a path segment is a valid post id: decimal digits denoting a
/// positive 32-bit integer.
pub open spec fn valid_id_param(s: Seq<char>) -> bool {
    &&& s.len() > 0
    &&& all_digits(s)
    &&& 1 <= digits_value(s) <= i32::MAX
}

/// The value of a prefix of a digit string is at most the value of the whole.
proof fn lemma_prefix_value_le(s: Seq<char>, i: int)
    requires
        all_digits(s),
        0 <= i <= s.len(),
    ensures
        0 <= digits_value(s.take(i)) <= digits_value(s),
    decreases s.len(),
{
    if i == s.len() {
        assert(s.take(i) =~= s);
        if s.len() > 0 {
            lemma_prefix_value_le(s.drop_last(), 0);
            assert(s.drop_last().take(0) =~= Seq::<char>::empty());
        }
    } else {
        let d = s.drop_last();
        assert(all_digits(d)) by {
            assert forall|j: int| 0 <= j < d.len() implies is_digit(#[trigger] d[j]) by {
                assert(d[j] == s[j]);
            }
        }
        lemma_prefix_value_le(d, i);
        assert(d.take(i) =~= s.take(i));
        assert(is_digit(s[s.len() - 1]));
    }
}

/// Parses the `:id` path parameter.
pub fn parse_post_id(s: &str) -> (r: Result<i32, PostError>)
    ensures
        match r {
            Ok(v) => valid_id_param(s@) && v as int == digits_value(s@),
            Err(e) => !valid_id_param(s@) && e == PostError::BadRequest,
        },
{
    let n = s.unicode_len();
    if n == 0 {
        return Err(PostError::BadRequest);
    }
    let mut acc: i64 = 0;
    let mut i: usize = 0;
    while i < n
        invariant
            n == s@.len(),
            0 <= i <= n,
            all_digits(s@.take(i as int)),
            acc as int == digits_value(s@.take(i as int)),
            0 <= acc <= i32::MAX,
        decreases n - i,
    {
        let c = s.get_char(i);
        if !('0' <= c && c <= '9') {
            return Err(PostError::BadRequest);
        }
        let d = (c as u32 - '0' as u32) as i64;
        acc = acc * 10 + d;
        proof {
            let t = s@.take(i as int + 1);
            assert(t.drop_last() =~= s@.take(i as int));
            assert(all_digits(t)) by {
                assert forall|j: int| 0 <= j < t.len() implies is_digit(#[trigger] t[j]) by {
                    if j < i {
                        assert(t[j] == s@.take(i as int)[j]);
                    }
                }
            }
        }
        if acc > i32::MAX as i64 {
            proof {
                if all_digits(s@) {
                    lemma_prefix_value_le(s@, i as int + 1);
                }
            }
            return Err(PostError::BadRequest);
        }
        i += 1;
    }
    assert(s@.take(n as int) =~= s@);
    if acc == 0 {
        return Err(PostError::BadRequest);
    }
    Ok(acc as i32)
}

} // verus!
