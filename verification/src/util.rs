use vstd::prelude::*;

verus! {

/// A decimal digit.
pub open spec fn spec_is_digit(c: char) -> bool {
    48 <= c as int <= 57
}

/// Every character of the sequence is a decimal digit.
pub open spec fn spec_all_digits(s: Seq<char>) -> bool {
    forall|i: int| 0 <= i < s.len() ==> spec_is_digit(#[trigger] s[i])
}

/// The numeric value of a digit sequence read in base ten.
pub open spec fn spec_decimal_value(s: Seq<char>) -> int
    decreases s.len(),
{
    if s.len() == 0 {
        0
    } else {
        spec_decimal_value(s.drop_last()) * 10 + (s.last() as int - 48)
    }
}

proof fn lemma_decimal_value_nonneg(s: Seq<char>)
    requires
        spec_all_digits(s),
    ensures
        spec_decimal_value(s) >= 0,
    decreases s.len(),
{
    if s.len() > 0 {
        assert(spec_all_digits(s.drop_last()));
        lemma_decimal_value_nonneg(s.drop_last());
    }
}

proof fn lemma_decimal_value_prefix_le(s: Seq<char>, j: int)
    requires
        spec_all_digits(s),
        0 <= j <= s.len(),
    ensures
        spec_decimal_value(s.take(j)) <= spec_decimal_value(s),
    decreases s.len() - j,
{
    if j == s.len() {
        assert(s.take(j) =~= s);
    } else {
        assert(s.take(j + 1).drop_last() =~= s.take(j));
        assert(s.take(j + 1).last() == s[j]);
        assert(spec_all_digits(s.take(j)));
        lemma_decimal_value_nonneg(s.take(j));
        lemma_decimal_value_prefix_le(s, j + 1);
    }
}

/// Read an unsigned decimal number.  Returns the value exactly when the
/// string is a nonempty run of digits whose value fits in a `u64`; rejects
/// everything else, including the empty string and any overflow.
pub fn parse_u64(s: &str) -> (r: Option<u64>)
    ensures
        r matches Some(n) ==> s@.len() > 0 && spec_all_digits(s@) && n == spec_decimal_value(s@),
        r is None <==> (s@.len() == 0 || !spec_all_digits(s@) || spec_decimal_value(s@)
            > u64::MAX),
{
    let n = s.unicode_len();
    if n == 0 {
        return None;
    }
    let mut acc: u64 = 0;
    let mut i: usize = 0;
    proof {
        assert(s@.take(0) =~= Seq::<char>::empty());
    }
    while i < n
        invariant
            0 <= i <= n,
            n == s@.len(),
            spec_all_digits(s@.take(i as int)),
            acc == spec_decimal_value(s@.take(i as int)),
        decreases n - i,
    {
        let c = s.get_char(i);
        let cv = c as u32;
        proof {
            assert(s@.take(i as int + 1).drop_last() =~= s@.take(i as int));
            assert(s@.take(i as int + 1).last() == s@[i as int]);
        }
        if cv < 48 || cv > 57 {
            return None;
        }
        let d = (cv - 48) as u64;
        if acc > 1844674407370955161u64 || (acc == 1844674407370955161u64 && d > 5) {
            proof {
                assert(spec_decimal_value(s@.take(i as int + 1)) > u64::MAX);
                if spec_all_digits(s@) {
                    lemma_decimal_value_prefix_le(s@, i as int + 1);
                }
            }
            return None;
        }
        acc = acc * 10 + d;
        i = i + 1;
    }
    proof {
        assert(s@.take(n as int) =~= s@);
    }
    Some(acc)
}

/// A moment decomposed into whole days since the epoch and the time of day.
#[derive(Clone, Copy, Debug, PartialEq, Eq, Structural)]
pub struct TimestampParts {
    pub days: u64,
    pub hours: u64,
    pub minutes: u64,
    pub seconds: u64,
}

/// Decompose seconds since the epoch into days and a time of day, as the
/// monitor's timestamps are displayed.
pub fn timestamp_parts(secs: u64) -> (r: TimestampParts)
    ensures
        r.days == secs as int / 86400,
        r.hours == (secs as int % 86400) / 3600,
        r.minutes == (secs as int % 3600) / 60,
        r.seconds == secs as int % 60,
        r.hours < 24,
        r.minutes < 60,
        r.seconds < 60,
{
    TimestampParts {
        days: secs / 86400,
        hours: (secs % 86400) / 3600,
        minutes: (secs % 3600) / 60,
        seconds: secs % 60,
    }
}

/// Shorten a long pool identifier for tabular display: identifiers longer
/// than twenty characters keep their first eight and last four characters
/// around an ellipsis; shorter ones are returned unchanged.
pub fn truncate_pool_id(pool_id: &str) -> (r: String)
    ensures
        pool_id@.len() <= 20 ==> r@ == pool_id@,
        pool_id@.len() > 20 ==> r@ == pool_id@.subrange(0, 8) + "..."@ + pool_id@.subrange(
            pool_id@.len() - 4,
            pool_id@.len() as int,
        ),
{
    let n = pool_id.unicode_len();
    if n > 20 {
        let head = pool_id.substring_char(0, 8);
        let tail = pool_id.substring_char(n - 4, n);
        let mut out = String::from_str(head);
        out.append("...");
        out.append(tail);
        out
    } else {
        String::from_str(pool_id)
    }
}

} // verus!
