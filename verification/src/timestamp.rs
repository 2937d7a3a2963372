//! The timestamp newtypes of the timezone-safety layer. A raw source
//! instant is a [`UtcTimestamp`]; a display-ready value is a
//! [`LocalTimestamp`], which can only come out of [`convert_timezone`],
//! so the type system keeps unconverted values away from output.

use vstd::prelude::*;
use vstd::string::StrSliceExecFns;
use vstd::string::StringExecFns;
use crate::calendar::civil_from_days;
use crate::calendar::days_before_month;
use crate::calendar::days_before_year;
use crate::calendar::days_in_month;
use crate::errors::ConversionError;
use crate::external::rfc3339_secs;
use crate::external::parse_rfc3339_secs;
use crate::external::tz_offset;
use crate::external::tz_utc_offset;
use crate::num::is_dec_digit_char;
use crate::num::lemma_pad2_seq_digits;
use crate::num::lemma_pad4_seq_digits;
use crate::num::lemma_pad2_seq_len;
use crate::num::lemma_pad4_seq_len;
use crate::num::pad2_seq;
use crate::num::pad2;
use crate::num::pad4_seq;
use crate::num::pad4;
use crate::timezone::Timezone;

verus! {

/// An instant anchored to UTC, as received from a data source. Its view
/// is the instant in Unix seconds, always strictly within 8.4e12 of the
/// epoch (the range the parser can produce).
#[derive(Debug, Clone, Copy)]
pub struct UtcTimestamp {
    secs: i64,
}

impl View for UtcTimestamp {
    type V = int;

    closed spec fn view(&self) -> int {
        self.secs as int
    }
}

impl UtcTimestamp {
    #[verifier::type_invariant]
    spec fn inv(self) -> bool {
        -8_400_000_000_000 < self.secs < 8_400_000_000_000
    }

    /// Parse an RFC 3339 string; any other shape is rejected, and the
    /// error names the offending input.
    pub fn from_rfc3339(s: &str) -> (r: Result<UtcTimestamp, ConversionError>)
        ensures
            r is Ok <==> rfc3339_secs(s@) is Some,
            r matches Ok(t) ==> rfc3339_secs(s@) == Some(t@),
            r matches Err(ConversionError::InvalidTimestamp { input }) ==> input@ == s@,
    {
        match parse_rfc3339_secs(s) {
            Some(t) => Ok(UtcTimestamp { secs: t }),
            None => Err(ConversionError::InvalidTimestamp { input: String::from_str(s) }),
        }
    }

    /// Wrap a known-UTC instant given in Unix seconds; `None` outside
    /// the representable window.
    pub fn from_unix_seconds(secs: i64) -> (r: Option<UtcTimestamp>)
        ensures
            r is Some <==> -8_400_000_000_000 < secs < 8_400_000_000_000,
            r matches Some(t) ==> t@ == secs as int,
    {
        if -8_400_000_000_000 < secs && secs < 8_400_000_000_000 {
            Some(UtcTimestamp { secs })
        } else {
            None
        }
    }

    /// The instant in Unix seconds.
    pub fn unix_seconds(&self) -> (r: i64)
        ensures
            r as int == self@,
    {
        self.secs
    }
}

/// The fixed textual form of a converted timestamp: the year (at least
/// four digits, sign kept), then `-MM-DD HH:MM` — never ISO 8601.
pub open spec fn display_seq(y: int, m: int, d: int, h: int, mi: int) -> Seq<char> {
    let ypart: Seq<char> = if y < 0 {
        seq!['-'] + pad4_seq(-y)
    } else {
        pad4_seq(y)
    };
    ypart + seq!['-'] + pad2_seq(m) + seq!['-'] + pad2_seq(d) + seq![' '] + pad2_seq(h)
        + seq![':'] + pad2_seq(mi)
}

/// An instant tagged with the IANA timezone it was converted into,
/// broken into its local civil fields. Values of this type exist only
/// as results of [`convert_timezone`].
#[derive(Debug)]
pub struct LocalTimestamp {
    tz_name: String,
    year: i64,
    month: u8,
    day: u8,
    hour: u8,
    minute: u8,
    second: u8,
}

impl LocalTimestamp {
    /// The local calendar year.
    pub closed spec fn year_spec(self) -> int {
        self.year as int
    }

    /// The local month, 1 to 12.
    pub closed spec fn month_spec(self) -> int {
        self.month as int
    }

    /// The local day of month, 1-based.
    pub closed spec fn day_spec(self) -> int {
        self.day as int
    }

    /// The local hour, 0 to 23.
    pub closed spec fn hour_spec(self) -> int {
        self.hour as int
    }

    /// The local minute, 0 to 59.
    pub closed spec fn minute_spec(self) -> int {
        self.minute as int
    }

    /// The local second, 0 to 59.
    pub closed spec fn second_spec(self) -> int {
        self.second as int
    }

    /// The calendar ranges every value of this type satisfies: this is
    /// the type invariant, so it holds of every converted timestamp.
    #[verifier::type_invariant]
    pub open spec fn civil_wf(self) -> bool {
        &&& -300_000 <= self.year_spec() <= 300_000
        &&& 1 <= self.month_spec() <= 12
        &&& 1 <= self.day_spec() <= days_in_month(self.year_spec(), self.month_spec())
        &&& 0 <= self.hour_spec() <= 23
        &&& 0 <= self.minute_spec() <= 59
        &&& 0 <= self.second_spec() <= 59
    }

    /// The name of the timezone this value was converted into.
    pub closed spec fn tz_name_spec(self) -> Seq<char> {
        self.tz_name@
    }

    /// The local civil time as seconds relative to the local rendering
    /// of the Unix epoch: the calendar decomposition of the civil
    /// fields, in the open.
    pub open spec fn civil_secs(self) -> int {
        86400 * (days_before_year(self.year_spec()) + days_before_month(
            self.year_spec(),
            self.month_spec(),
        ) + (self.day_spec() - 1)) + 3600 * self.hour_spec() + 60 * self.minute_spec()
            + self.second_spec()
    }

    /// What [`LocalTimestamp::to_display_string`] returns: the civil
    /// fields rendered under [`display_seq`], in the open.
    pub open spec fn display_spec(self) -> Seq<char> {
        display_seq(
            self.year_spec(),
            self.month_spec(),
            self.day_spec(),
            self.hour_spec(),
            self.minute_spec(),
        )
    }

    /// The timezone name carried by this value.
    pub fn timezone(&self) -> (r: &str)
        ensures
            r@ == self.tz_name_spec(),
    {
        self.tz_name.as_str()
    }

    /// Serialize to the fixed `YYYY-MM-DD HH:MM` form.
    pub fn to_display_string(&self) -> (r: String)
        ensures
            r@ == self.display_spec(),
    {
        proof {
            use_type_invariant(self);
            reveal_strlit("-");
            reveal_strlit(" ");
            reveal_strlit(":");
        }
        let mut s = if self.year < 0 {
            let mut t = String::from_str("-");
            let p = pad4((-(self.year)) as u64);
            t.append(p.as_str());
            t
        } else {
            pad4(self.year as u64)
        };
        s.append("-");
        let mm = pad2(self.month as u64);
        s.append(mm.as_str());
        s.append("-");
        let dd = pad2(self.day as u64);
        s.append(dd.as_str());
        s.append(" ");
        let hh = pad2(self.hour as u64);
        s.append(hh.as_str());
        s.append(":");
        let mi = pad2(self.minute as u64);
        s.append(mi.as_str());
        proof {
            assert(s@ =~= self.display_spec());
        }
        s
    }
}

/// Convert a raw UTC instant into the target timezone. Total: once the
/// timezone exists, conversion cannot fail. The local civil time equals
/// the instant shifted by the offset the zone's rules give it; DST gaps
/// and overlaps cannot arise, since the conversion starts from UTC.
pub fn convert_timezone(utc: &UtcTimestamp, target_tz: &Timezone) -> (r: LocalTimestamp)
    ensures
        r.tz_name_spec() == target_tz.name_spec(),
        r.civil_secs() == utc@ + tz_offset(target_tz.name_spec(), utc@),
        r.civil_wf(),
{
    proof {
        use_type_invariant(utc);
    }
    let secs = utc.unix_seconds();
    let off = tz_utc_offset(target_tz.name(), secs);
    let local: i64 = secs + (off as i64);
    let shifted: i64 = local + 86_400 * 200_000_000;
    let su: u64 = shifted as u64;
    let d0: u64 = su / 86400;
    let sod: u64 = su % 86400;
    let days_rel: i64 = (d0 as i64) - 200_000_000;
    proof {
        assert(su == 86400 * (su / 86400) + su % 86400);
        assert(local == 86400 * (days_rel as int) + sod);
    }
    let (y, m, d) = civil_from_days(days_rel);
    let h: u64 = sod / 3600;
    let r1: u64 = sod % 3600;
    let mi: u64 = r1 / 60;
    let sec: u64 = r1 % 60;
    proof {
        assert(sod == 3600 * (sod / 3600) + sod % 3600);
        assert(r1 == 60 * (r1 / 60) + r1 % 60);
    }
    let out = LocalTimestamp {
        tz_name: String::from_str(target_tz.name()),
        year: y,
        month: m as u8,
        day: d as u8,
        hour: h as u8,
        minute: mi as u8,
        second: sec as u8,
    };
    proof {
        assert(out.civil_secs() == utc@ + tz_offset(target_tz.name_spec(), utc@));
    }
    out
}


/// Law: the serialized form of a converted timestamp never contains
/// the ISO 8601 markers `T`, `Z` or `+` — every character is a digit,
/// a dash, a space or a colon.
pub proof fn lemma_display_free_of_iso_markers(ts: LocalTimestamp)
    ensures
        forall|i: int|
            0 <= i < ts.display_spec().len() ==> #[trigger] ts.display_spec()[i] != 'T'
                && ts.display_spec()[i] != 'Z' && ts.display_spec()[i] != '+',
{
    lemma_display_seq_no_markers(
        ts.year as int,
        ts.month as int,
        ts.day as int,
        ts.hour as int,
        ts.minute as int,
    );
}

/// Every character of [`display_seq`] is a digit or one of `-`, ` `, `:`.
proof fn lemma_display_seq_no_markers(y: int, m: int, d: int, h: int, mi: int)
    ensures
        forall|i: int|
            0 <= i < display_seq(y, m, d, h, mi).len() ==> is_dec_digit_char(
                #[trigger] display_seq(y, m, d, h, mi)[i],
            ) || display_seq(y, m, d, h, mi)[i] == '-' || display_seq(y, m, d, h, mi)[i] == ' '
                || display_seq(y, m, d, h, mi)[i] == ':',
{
    lemma_pad4_seq_digits(y);
    lemma_pad4_seq_digits(-y);
    lemma_pad2_seq_digits(m);
    lemma_pad2_seq_digits(d);
    lemma_pad2_seq_digits(h);
    lemma_pad2_seq_digits(mi);
}

/// Count how often `c` occurs in `s`.
pub open spec fn count_char(s: Seq<char>, c: char) -> nat
    decreases s.len(),
{
    if s.len() == 0 {
        0nat
    } else {
        count_char(s.drop_last(), c) + if s.last() == c {
            1nat
        } else {
            0nat
        }
    }
}

/// The structural check on a serialized timestamp: sixteen characters,
/// one space splitting a date part with two dashes from a time part
/// with one colon.
pub open spec fn display_format_ok(s: Seq<char>) -> bool {
    &&& s.len() == 16
    &&& count_char(s, ' ') == 1
    &&& exists|k: int|
        0 <= k < 16 && s[k] == ' ' && count_char(s.take(k), '-') == 2 && count_char(
            s.skip(k + 1),
            ':',
        ) == 1
}

/// One step of prefix counting.
proof fn lemma_count_take_step(s: Seq<char>, c: char, i: int)
    requires
        0 <= i < s.len(),
    ensures
        count_char(s.take(i + 1), c) == count_char(s.take(i), c) + if s[i] == c {
            1nat
        } else {
            0nat
        },
{
    assert(s.take(i + 1).drop_last() =~= s.take(i));
    assert(s.take(i + 1).last() == s[i]);
}

/// Whether a string has the exact `YYYY-MM-DD HH:MM` shape: sixteen
/// characters, one space between a two-dash date and a one-colon time.
pub fn assert_timestamp_format(timestamp: &str) -> (r: bool)
    ensures
        r == display_format_ok(timestamp@),
{
    let n = timestamp.unicode_len();
    if n != 16 {
        return false;
    }
    let mut spaces: usize = 0;
    let mut space_at: usize = 0;
    let mut i: usize = 0;
    while i < 16
        invariant
            timestamp@.len() == 16,
            i <= 16,
            spaces <= i,
            spaces == count_char(timestamp@.take(i as int), ' '),
            spaces > 0 ==> space_at < i && timestamp@[space_at as int] == ' ',
        decreases 16 - i,
    {
        proof {
            lemma_count_take_step(timestamp@, ' ', i as int);
        }
        if timestamp.get_char(i) == ' ' {
            if spaces == 0 {
                space_at = i;
            }
            spaces = spaces + 1;
        }
        i = i + 1;
    }
    proof {
        assert(timestamp@.take(16int) =~= timestamp@);
    }
    if spaces != 1 {
        return false;
    }
    let ghost k = space_at as int;
    let mut dashes: usize = 0;
    let mut j: usize = 0;
    while j < space_at
        invariant
            timestamp@.len() == 16,
            space_at < 16,
            j <= space_at,
            dashes <= j,
            dashes == count_char(timestamp@.take(k).take(j as int), '-'),
            k == space_at as int,
        decreases space_at - j,
    {
        proof {
            lemma_count_take_step(timestamp@.take(k), '-', j as int);
            assert(timestamp@.take(k)[j as int] == timestamp@[j as int]);
        }
        if timestamp.get_char(j) == '-' {
            dashes = dashes + 1;
        }
        j = j + 1;
    }
    proof {
        assert(timestamp@.take(k).take(k) =~= timestamp@.take(k));
    }
    let mut colons: usize = 0;
    let mut p: usize = space_at + 1;
    while p < 16
        invariant
            timestamp@.len() == 16,
            space_at < 16,
            space_at + 1 <= p <= 16,
            colons <= p,
            colons == count_char(timestamp@.skip(k + 1).take(p - space_at - 1), ':'),
            k == space_at as int,
        decreases 16 - p,
    {
        proof {
            lemma_count_take_step(timestamp@.skip(k + 1), ':', p - space_at - 1);
            assert(timestamp@.skip(k + 1)[p - space_at - 1] == timestamp@[p as int]);
        }
        if timestamp.get_char(p) == ':' {
            colons = colons + 1;
        }
        p = p + 1;
    }
    proof {
        assert(timestamp@.skip(k + 1).take(16 - space_at - 1) =~= timestamp@.skip(k + 1));
    }
    let ok = dashes == 2 && colons == 1;
    proof {
        if ok {
            assert(0 <= k < 16 && timestamp@[k] == ' ' && count_char(timestamp@.take(k), '-') == 2
                && count_char(timestamp@.skip(k + 1), ':') == 1);
            assert(display_format_ok(timestamp@));
        } else {
            if display_format_ok(timestamp@) {
                let kk = choose|kk: int|
                    0 <= kk < 16 && timestamp@[kk] == ' ' && count_char(timestamp@.take(kk), '-')
                        == 2 && count_char(timestamp@.skip(kk + 1), ':') == 1;
                lemma_unique_space(timestamp@, k, kk);
                assert(false);
            }
        }
    }
    ok
}


/// Counting distributes over concatenation.
proof fn lemma_count_concat(a: Seq<char>, b: Seq<char>, c: char)
    ensures
        count_char(a + b, c) == count_char(a, c) + count_char(b, c),
    decreases b.len(),
{
    if b.len() == 0 {
        assert(a + b =~= a);
    } else {
        assert((a + b).drop_last() =~= a + b.drop_last());
        assert((a + b).last() == b.last());
        lemma_count_concat(a, b.drop_last(), c);
    }
}

/// A one-character sequence counts one occurrence of its character.
proof fn lemma_count_singleton(x: char, c: char)
    ensures
        count_char(seq![x], c) == if x == c {
            1nat
        } else {
            0nat
        },
{
    assert(count_char(Seq::<char>::empty(), c) == 0);
    assert(seq![x].drop_last() =~= Seq::<char>::empty());
    assert(seq![x].last() == x);
}

/// A sequence of digits holds no occurrence of a non-digit.
proof fn lemma_count_digits_zero(s: Seq<char>, c: char)
    requires
        forall|i: int| 0 <= i < s.len() ==> is_dec_digit_char(#[trigger] s[i]),
        !is_dec_digit_char(c),
    ensures
        count_char(s, c) == 0,
    decreases s.len(),
{
    if s.len() > 0 {
        assert(forall|i: int|
            0 <= i < s.drop_last().len() ==> is_dec_digit_char(#[trigger] s.drop_last()[i]));
        lemma_count_digits_zero(s.drop_last(), c);
    }
}

/// Law: for years 0 through 9999 the serialized form of a converted
/// timestamp is exactly the sixteen-character `YYYY-MM-DD HH:MM`
/// shape: one space between a two-dash date and a one-colon time.
pub proof fn lemma_display_has_fixed_form(ts: LocalTimestamp)
    requires
        ts.civil_wf(),
        0 <= ts.year_spec() <= 9999,
    ensures
        ts.display_spec().len() == 16,
        display_format_ok(ts.display_spec()),
{
    let y = ts.year_spec();
    let m = ts.month_spec();
    let d = ts.day_spec();
    let h = ts.hour_spec();
    let mi = ts.minute_spec();
    lemma_pad4_seq_len(y);
    lemma_pad2_seq_len(m);
    lemma_pad2_seq_len(d);
    lemma_pad2_seq_len(h);
    lemma_pad2_seq_len(mi);
    lemma_pad4_seq_digits(y);
    lemma_pad2_seq_digits(m);
    lemma_pad2_seq_digits(d);
    lemma_pad2_seq_digits(h);
    lemma_pad2_seq_digits(mi);
    let s = ts.display_spec();
    let date = pad4_seq(y) + seq!['-'] + pad2_seq(m) + seq!['-'] + pad2_seq(d);
    let time = pad2_seq(h) + seq![':'] + pad2_seq(mi);
    assert(s =~= date + seq![' '] + time);
    assert(s.len() == 16);
    lemma_count_concat(date + seq![' '], time, ' ');
    lemma_count_concat(date, seq![' '], ' ');
    lemma_count_singleton(' ', ' ');
    lemma_count_pieces(pad4_seq(y), pad2_seq(m), pad2_seq(d), ' ');
    assert(count_char(time, ' ') == 0) by {
        lemma_count_concat(pad2_seq(h) + seq![':'], pad2_seq(mi), ' ');
        lemma_count_concat(pad2_seq(h), seq![':'], ' ');
        lemma_count_singleton(':', ' ');
        lemma_count_digits_zero(pad2_seq(h), ' ');
        lemma_count_digits_zero(pad2_seq(mi), ' ');
    }
    assert(count_char(s, ' ') == 1);
    assert(s[10] == ' ');
    assert(s.take(10) =~= date);
    assert(s.skip(11) =~= time);
    lemma_count_pieces(pad4_seq(y), pad2_seq(m), pad2_seq(d), '-');
    assert(count_char(date, '-') == 2);
    assert(count_char(time, ':') == 1) by {
        lemma_count_concat(pad2_seq(h) + seq![':'], pad2_seq(mi), ':');
        lemma_count_concat(pad2_seq(h), seq![':'], ':');
        lemma_count_singleton(':', ':');
        lemma_count_digits_zero(pad2_seq(h), ':');
        lemma_count_digits_zero(pad2_seq(mi), ':');
    }
    assert(display_format_ok(s));
}

/// How often `c` occurs in a date-shaped concatenation of three digit
/// groups joined by dashes.
proof fn lemma_count_pieces(a: Seq<char>, b: Seq<char>, d2: Seq<char>, c: char)
    requires
        forall|i: int| 0 <= i < a.len() ==> is_dec_digit_char(#[trigger] a[i]),
        forall|i: int| 0 <= i < b.len() ==> is_dec_digit_char(#[trigger] b[i]),
        forall|i: int| 0 <= i < d2.len() ==> is_dec_digit_char(#[trigger] d2[i]),
        !is_dec_digit_char(c),
    ensures
        count_char(a + seq!['-'] + b + seq!['-'] + d2, c) == if c == '-' {
            2nat
        } else {
            0nat
        },
{
    lemma_count_concat(a + seq!['-'] + b + seq!['-'], d2, c);
    lemma_count_concat(a + seq!['-'] + b, seq!['-'], c);
    lemma_count_concat(a + seq!['-'], b, c);
    lemma_count_concat(a, seq!['-'], c);
    lemma_count_singleton('-', c);
    lemma_count_digits_zero(a, c);
    lemma_count_digits_zero(b, c);
    lemma_count_digits_zero(d2, c);
}

/// With exactly one space in `s`, two indices holding spaces coincide.
proof fn lemma_unique_space(s: Seq<char>, a: int, b: int)
    requires
        count_char(s, ' ') == 1,
        0 <= a < s.len(),
        0 <= b < s.len(),
        s[a] == ' ',
        s[b] == ' ',
    ensures
        a == b,
{
    if a != b {
        lemma_count_at_least_two(s, if a < b {
            a
        } else {
            b
        }, if a < b {
            b
        } else {
            a
        });
    }
}

/// Two distinct space positions force a count of at least two.
proof fn lemma_count_at_least_two(s: Seq<char>, a: int, b: int)
    requires
        0 <= a < b < s.len(),
        s[a] == ' ',
        s[b] == ' ',
    ensures
        count_char(s, ' ') >= 2,
    decreases s.len(),
{
    if b == s.len() - 1 {
        lemma_count_at_least_one(s.drop_last(), a);
    } else {
        lemma_count_at_least_two(s.drop_last(), a, b);
    }
}

/// One space position forces a count of at least one.
proof fn lemma_count_at_least_one(s: Seq<char>, a: int)
    requires
        0 <= a < s.len(),
        s[a] == ' ',
    ensures
        count_char(s, ' ') >= 1,
    decreases s.len(),
{
    if a < s.len() - 1 {
        lemma_count_at_least_one(s.drop_last(), a);
    }
}

} // verus!
