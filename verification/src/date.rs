//! Strict `YYYYMMDD` date parsing and the localized calendar display.
//!
//! A digest's date travels as an eight-digit string. Parsing validates it
//! against the proleptic Gregorian calendar (leap years included) and
//! yields the year, month and day as plain integers. The calendar display
//! derives the day number and a localized month name from a fixed
//! twelve-entry table.

use vstd::prelude::*;
use crate::strings::push_char;

verus! {

/// A decimal digit character.
pub open spec fn is_digit(c: char) -> bool {
    '0' as u32 <= c as u32 && c as u32 <= '9' as u32
}

/// The numeric value of a decimal digit character.
pub open spec fn digit_val(c: char) -> int {
    c as u32 - '0' as u32
}

/// Every character of the sequence is a decimal digit.
pub open spec fn all_digits(s: Seq<char>) -> bool {
    forall|i: int| 0 <= i < s.len() ==> is_digit(s[i])
}

/// A leap year of the proleptic Gregorian calendar.
pub open spec fn is_leap_year(y: int) -> bool {
    y % 4 == 0 && (y % 100 != 0 || y % 400 == 0)
}

/// The number of days of month `m` in year `y` (months counted 1 to 12).
pub open spec fn days_in_month(y: int, m: int) -> int {
    if m == 2 {
        if is_leap_year(y) {
            29
        } else {
            28
        }
    } else if m == 4 || m == 6 || m == 9 || m == 11 {
        30
    } else {
        31
    }
}

/// The year encoded by the first four characters of an eight-digit string.
pub open spec fn year_of(s: Seq<char>) -> int {
    digit_val(s[0]) * 1000 + digit_val(s[1]) * 100 + digit_val(s[2]) * 10 + digit_val(s[3])
}

/// The month encoded by the fifth and sixth characters.
pub open spec fn month_of(s: Seq<char>) -> int {
    digit_val(s[4]) * 10 + digit_val(s[5])
}

/// The day encoded by the seventh and eighth characters.
pub open spec fn day_of(s: Seq<char>) -> int {
    digit_val(s[6]) * 10 + digit_val(s[7])
}

/// A string is a valid `YYYYMMDD` date: exactly eight decimal digits
/// naming a real calendar date.
pub open spec fn valid_yyyymmdd(s: Seq<char>) -> bool {
    &&& s.len() == 8
    &&& all_digits(s)
    &&& 1 <= month_of(s) <= 12
    &&& 1 <= day_of(s) <= days_in_month(year_of(s), month_of(s))
}

/// A calendar date as plain integers.
#[derive(Clone, Copy, PartialEq, Eq, Structural, Debug)]
pub struct Date {
    pub year: u16,
    pub month: u8,
    pub day: u8,
}

impl Date {
    /// The date names a real day of the proleptic Gregorian calendar.
    pub open spec fn valid(self) -> bool {
        &&& self.year <= 9999
        &&& 1 <= self.month <= 12
        &&& 1 <= self.day <= days_in_month(self.year as int, self.month as int)
    }
}

/// Position `j` of the string has been read into the digit buffer.
pub open spec fn digit_read(s: Seq<char>, v: Seq<u8>, j: int) -> bool {
    is_digit(s[j]) && v[j] as int == digit_val(s[j])
}

/// The numeric value of a digit character, or `None` when the character
/// is not a digit.
fn digit_of(c: char) -> (r: Option<u8>)
    ensures
        (r is Some) == is_digit(c),
        r matches Some(d) ==> d as int == digit_val(c),
{
    let u: u32 = c as u32;
    if 48 <= u && u <= 57 {
        Some((u - 48) as u8)
    } else {
        None
    }
}

/// Whether year `y` is a leap year.
pub fn leap_year(y: u16) -> (r: bool)
    ensures
        r == is_leap_year(y as int),
{
    y % 4 == 0 && (y % 100 != 0 || y % 400 == 0)
}

/// The number of days of month `m` in year `y`.
pub fn month_days(y: u16, m: u8) -> (r: u8)
    ensures
        r as int == days_in_month(y as int, m as int),
{
    if m == 2 {
        if leap_year(y) {
            29
        } else {
            28
        }
    } else if m == 4 || m == 6 || m == 9 || m == 11 {
        30
    } else {
        31
    }
}

/// Parses a strict `YYYYMMDD` date string. Returns the calendar date
/// exactly when the string is eight decimal digits naming a real date;
/// every other input is rejected.
pub fn parse_yyyymmdd(s: &str) -> (r: Option<Date>)
    ensures
        (r is Some) == valid_yyyymmdd(s@),
        r matches Some(d) ==> {
            &&& d.year as int == year_of(s@)
            &&& d.month as int == month_of(s@)
            &&& d.day as int == day_of(s@)
            &&& d.valid()
        },
{
    let n = s.unicode_len();
    if n != 8 {
        return None;
    }
    let mut vals: Vec<u8> = Vec::new();
    let mut i: usize = 0;
    while i < 8
        invariant
            s@.len() == 8,
            i <= 8,
            vals.len() == i,
            forall|j: int| 0 <= j < i ==> #[trigger] digit_read(s@, vals@, j),
        decreases 8 - i,
    {
        let c = s.get_char(i);
        proof {
            assert(c == s@[i as int]);
        }
        match digit_of(c) {
            Some(d) => {
                proof {
                    assert(is_digit(c));
                    assert(d as int == digit_val(c));
                }
                let ghost prev = vals@;
                vals.push(d);
                proof {
                    assert forall|j: int| 0 <= j < i + 1 implies #[trigger] digit_read(
                        s@,
                        vals@,
                        j,
                    ) by {
                        if j == i {
                            assert(c == s@[j]);
                            assert(vals@[j] == d);
                        } else {
                            assert(vals@[j] == prev[j]);
                            assert(digit_read(s@, prev, j));
                        }
                    }
                }
            },
            None => {
                return None;
            },
        }
        i += 1;
    }
    proof {
        assert forall|j: int| 0 <= j < s@.len() implies is_digit(#[trigger] s@[j]) by {
            assert(digit_read(s@, vals@, j));
        }
        assert forall|j: int| 0 <= j < 8 implies #[trigger] vals@[j] as int == digit_val(s@[j]) by {
            assert(digit_read(s@, vals@, j));
        }
        assert(all_digits(s@));
    }
    let year: u16 = vals[0] as u16 * 1000 + vals[1] as u16 * 100 + vals[2] as u16 * 10
        + vals[3] as u16;
    let month: u8 = vals[4] * 10 + vals[5];
    let day: u8 = vals[6] * 10 + vals[7];
    if month < 1 || month > 12 {
        return None;
    }
    if day < 1 || day > month_days(year, month) {
        return None;
    }
    Some(Date { year, month, day })
}

/// The localized name of a month, by the fixed twelve-entry table.
/// Every value outside 2 to 12 — month 1 included — falls to the
/// table's first entry.
pub open spec fn month_name_spec(month: int) -> Seq<char> {
    if month == 2 {
        seq!['二']
    } else if month == 3 {
        seq!['三']
    } else if month == 4 {
        seq!['四']
    } else if month == 5 {
        seq!['五']
    } else if month == 6 {
        seq!['六']
    } else if month == 7 {
        seq!['七']
    } else if month == 8 {
        seq!['八']
    } else if month == 9 {
        seq!['九']
    } else if month == 10 {
        seq!['十']
    } else if month == 11 {
        seq!['十', '一']
    } else if month == 12 {
        seq!['十', '二']
    } else {
        seq!['一']
    }
}

/// The character of a decimal digit value.
pub open spec fn dec_digit(d: int) -> char {
    if d == 0 {
        '0'
    } else if d == 1 {
        '1'
    } else if d == 2 {
        '2'
    } else if d == 3 {
        '3'
    } else if d == 4 {
        '4'
    } else if d == 5 {
        '5'
    } else if d == 6 {
        '6'
    } else if d == 7 {
        '7'
    } else if d == 8 {
        '8'
    } else {
        '9'
    }
}

/// The decimal digits of a day number, without a leading zero.
pub open spec fn day_digits_spec(d: int) -> Seq<char> {
    if d < 10 {
        seq![dec_digit(d)]
    } else {
        seq![dec_digit(d / 10), dec_digit(d % 10)]
    }
}

/// The calendar display derived from a valid date string: the day's
/// digits and the localized month name with its suffix.
pub open spec fn caldate_spec(s: Seq<char>) -> CalDateV {
    CalDateV {
        day: day_digits_spec(day_of(s)),
        month: month_name_spec(month_of(s)) + "月"@,
    }
}

/// The mathematical value of the calendar display's fields.
pub ghost struct CalDateV {
    pub day: Seq<char>,
    pub month: Seq<char>,
}

/// The calendar display of a digest's date: the day number and the
/// localized month name, both ready for rendering.
pub struct CalDate {
    pub day: String,
    pub month: String,
}

impl View for CalDate {
    type V = CalDateV;

    open spec fn view(&self) -> CalDateV {
        CalDateV { day: self.day@, month: self.month@ }
    }
}

/// The character of a decimal digit value.
fn digit_char(d: u8) -> (c: char)
    requires
        d <= 9,
    ensures
        c == dec_digit(d as int),
{
    match d {
        0 => '0',
        1 => '1',
        2 => '2',
        3 => '3',
        4 => '4',
        5 => '5',
        6 => '6',
        7 => '7',
        8 => '8',
        _ => '9',
    }
}

/// The decimal digits of a day number, without a leading zero.
pub fn day_string(day: u8) -> (r: String)
    requires
        1 <= day <= 31,
    ensures
        r@ == day_digits_spec(day as int),
{
    let mut r = String::new();
    if day < 10 {
        push_char(&mut r, digit_char(day));
        proof {
            assert(r@ =~= day_digits_spec(day as int));
        }
    } else {
        push_char(&mut r, digit_char(day / 10));
        push_char(&mut r, digit_char(day % 10));
        proof {
            assert(r@ =~= day_digits_spec(day as int));
        }
    }
    r
}

impl CalDate {
    /// The localized month name, by the fixed twelve-entry table; every
    /// value outside 2 to 12 falls to the first entry.
    pub fn month_name(month: u32) -> (r: &'static str)
        ensures
            r@ == month_name_spec(month as int),
    {
        match month {
            2 => {
                proof {
                    reveal_strlit("二");
                    assert("二"@ =~= seq!['二']);
                }
                "二"
            },
            3 => {
                proof {
                    reveal_strlit("三");
                    assert("三"@ =~= seq!['三']);
                }
                "三"
            },
            4 => {
                proof {
                    reveal_strlit("四");
                    assert("四"@ =~= seq!['四']);
                }
                "四"
            },
            5 => {
                proof {
                    reveal_strlit("五");
                    assert("五"@ =~= seq!['五']);
                }
                "五"
            },
            6 => {
                proof {
                    reveal_strlit("六");
                    assert("六"@ =~= seq!['六']);
                }
                "六"
            },
            7 => {
                proof {
                    reveal_strlit("七");
                    assert("七"@ =~= seq!['七']);
                }
                "七"
            },
            8 => {
                proof {
                    reveal_strlit("八");
                    assert("八"@ =~= seq!['八']);
                }
                "八"
            },
            9 => {
                proof {
                    reveal_strlit("九");
                    assert("九"@ =~= seq!['九']);
                }
                "九"
            },
            10 => {
                proof {
                    reveal_strlit("十");
                    assert("十"@ =~= seq!['十']);
                }
                "十"
            },
            11 => {
                proof {
                    reveal_strlit("十一");
                    assert("十一"@ =~= seq!['十', '一']);
                }
                "十一"
            },
            12 => {
                proof {
                    reveal_strlit("十二");
                    assert("十二"@ =~= seq!['十', '二']);
                }
                "十二"
            },
            _ => {
                proof {
                    reveal_strlit("一");
                    assert("一"@ =~= seq!['一']);
                }
                "一"
            },
        }
    }

    /// Derives the calendar display of a parsed date: the day's decimal
    /// digits and the localized month name with its suffix.
    pub fn new(date: &Date) -> (r: CalDate)
        requires
            1 <= date.day <= 31,
        ensures
            r@.day == day_digits_spec(date.day as int),
            r@.month == month_name_spec(date.month as int) + "月"@,
    {
        let name = Self::month_name(date.month as u32);
        let mut month = name.to_owned();
        month.append("月");
        CalDate { day: day_string(date.day), month }
    }
}

/// The numeric value of a digit string, most significant digit first.
pub open spec fn digits_value(s: Seq<char>) -> int
    decreases s.len(),
{
    if s.len() == 0 {
        0
    } else {
        digits_value(s.take(s.len() - 1)) * 10 + digit_val(s[s.len() - 1])
    }
}

/// For every valid `YYYYMMDD` string, the derived calendar display is
/// exact: the day's digit string encodes precisely the day number read
/// from the string, and the month, being between 1 and 12, takes its
/// name from the twelve-entry table, where month 1 shares the table's
/// first entry with every out-of-range value.
pub proof fn lemma_calendar_display_exact(s: Seq<char>)
    requires
        valid_yyyymmdd(s),
    ensures
        1 <= day_of(s) <= 31,
        digits_value(caldate_spec(s).day) == day_of(s),
        all_digits(caldate_spec(s).day),
        1 <= month_of(s) <= 12,
        caldate_spec(s).month == month_name_spec(month_of(s)) + "月"@,
{
    let d = day_of(s);
    lemma_day_digits_value(d);
}

/// The digit string of a day number between 1 and 31 encodes exactly
/// that number.
pub proof fn lemma_day_digits_value(d: int)
    requires
        1 <= d <= 31,
    ensures
        digits_value(day_digits_spec(d)) == d,
        all_digits(day_digits_spec(d)),
{
    assert(digits_value(Seq::<char>::empty()) == 0);
    if d < 10 {
        let one = day_digits_spec(d);
        assert(one.take(0) =~= Seq::<char>::empty());
        assert(digits_value(one) == digits_value(one.take(0)) * 10 + digit_val(one[0]));
        assert(digits_value(one) == digit_val(dec_digit(d)));
    } else {
        let two = day_digits_spec(d);
        let one = seq![dec_digit(d / 10)];
        assert(two.take(1) =~= one);
        assert(one.take(0) =~= Seq::<char>::empty());
        assert(digits_value(one) == digits_value(one.take(0)) * 10 + digit_val(one[0]));
        assert(digits_value(two) == digits_value(two.take(1)) * 10 + digit_val(two[1]));
        assert(digits_value(two) == digit_val(dec_digit(d / 10)) * 10 + digit_val(
            dec_digit(d % 10),
        ));
    }
}

/// Month 1 and every out-of-range month value share the table's first
/// entry — the table has no entry of its own for month 1.
pub proof fn lemma_month_name_default(m: int)
    requires
        m < 2 || m > 12,
    ensures
        month_name_spec(m) == month_name_spec(1),
{
}

} // verus!
