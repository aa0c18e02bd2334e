use vstd::prelude::*;
use vstd::string::{StrSliceExecFns, StringExecFns};

verus! {

/// A display colour that a piece of a line can be given.
#[derive(Clone, Copy, Debug, PartialEq, Eq, Structural)]
pub enum Tone {
    Green,
    Yellow,
    Red,
    Cyan,
    Magenta,
    Blue,
}

/// The terminal sequence that ends any colouring.
pub open spec fn reset_seq() -> Seq<char> {
    seq!['\u{1b}', '[', '0', 'm']
}

pub open spec fn ends_with_reset(r: Seq<char>) -> bool {
    r.len() >= 4 && r.subrange(r.len() - 4, r.len() as int) == reset_seq()
}

/// The foreground code of a tone in a terminal escape sequence.
pub open spec fn tone_code(tone: Tone) -> Seq<char> {
    match tone {
        Tone::Red => seq!['3', '1'],
        Tone::Green => seq!['3', '2'],
        Tone::Yellow => seq!['3', '3'],
        Tone::Blue => seq!['3', '4'],
        Tone::Magenta => seq!['3', '5'],
        Tone::Cyan => seq!['3', '6'],
    }
}

/// The escape sequence that switches a tone on.
pub open spec fn style_of(tone: Tone) -> Seq<char> {
    seq!['\u{1b}', '['] + tone_code(tone) + seq!['m']
}

/// The text with `style` written again after every reset in it, so that an
/// inner coloured piece does not end the outer colour.
pub open spec fn restyle(s: Seq<char>, style: Seq<char>) -> Seq<char>
    decreases s.len(),
{
    if s.len() < 4 {
        s
    } else if s.subrange(0, 4) == reset_seq() {
        reset_seq() + style + restyle(s.subrange(4, s.len() as int), style)
    } else {
        seq![s[0]] + restyle(s.subrange(1, s.len() as int), style)
    }
}

/// What a piece coloured with `tone` looks like: the text itself where
/// colouring is off, else the text in the tone's escape codes.
pub open spec fn painted(r: Seq<char>, s: Seq<char>, tone: Tone) -> bool {
    r == s || r == style_of(tone) + restyle(s, style_of(tone)) + reset_seq()
}

/// A coloured piece starts with its tone's escape sequence and ends with the
/// reset, where it differs from the plain text.
pub proof fn lemma_painted_frame(r: Seq<char>, s: Seq<char>, tone: Tone)
    requires
        painted(r, s, tone),
        r != s,
    ensures
        r.len() >= style_of(tone).len() + 4,
        r.subrange(0, style_of(tone).len() as int) == style_of(tone),
        ends_with_reset(r),
{
    let st = style_of(tone);
    let mid = restyle(s, st);
    assert(r == st + mid + reset_seq());
    assert(r.subrange(0, st.len() as int) =~= st);
    assert(r.subrange(r.len() - 4, r.len() as int) =~= reset_seq());
}

pub open spec fn is_digit(c: char) -> bool {
    '0' <= c && c <= '9'
}

pub open spec fn digits_at(s: Seq<char>, lo: int, hi: int) -> bool {
    forall|i: int| lo <= i < hi ==> is_digit(#[trigger] s[i])
}

/// A year: four digits, or a sign and at least four digits.
pub open spec fn year_layout(y: Seq<char>) -> bool {
    (y.len() == 4 && digits_at(y, 0, 4)) || (y.len() >= 5 && (y[0] == '+' || y[0] == '-')
        && digits_at(y, 1, y.len() as int))
}

/// `-MM-DDTHH:MM:SS.mmm`
pub open spec fn clock_layout(b: Seq<char>) -> bool {
    &&& b.len() == 19
    &&& b[0] == '-' && digits_at(b, 1, 3) && b[3] == '-' && digits_at(b, 4, 6)
    &&& b[6] == 'T' && digits_at(b, 7, 9) && b[9] == ':' && digits_at(b, 10, 12)
    &&& b[12] == ':' && digits_at(b, 13, 15) && b[15] == '.' && digits_at(b, 16, 19)
}

/// `Z`, or `+HH:MM` / `-HH:MM`.
pub open spec fn zone_layout(z: Seq<char>) -> bool {
    z == seq!['Z'] || (z.len() == 6 && (z[0] == '+' || z[0] == '-') && digits_at(z, 1, 3)
        && z[3] == ':' && digits_at(z, 4, 6))
}

/// An RFC 3339 date-time at millisecond precision with an explicit offset.
pub open spec fn rfc3339_millis_layout(s: Seq<char>) -> bool {
    let n = s.len() as int;
    let zl: int = if n > 0 && s[n - 1] == 'Z' { 1 } else { 6 };
    &&& n >= zl + 23
    &&& zone_layout(s.subrange(n - zl, n))
    &&& clock_layout(s.subrange(n - zl - 19, n - zl))
    &&& year_layout(s.subrange(0, n - zl - 19))
}

/// The colour that a severity label is shown in: an exact, case-sensitive match.
pub open spec fn level_tone(l: Seq<char>) -> Option<Tone> {
    if l == "info"@ {
        Some(Tone::Green)
    } else if l == "warn"@ {
        Some(Tone::Yellow)
    } else if l == "error"@ {
        Some(Tone::Red)
    } else if l == "debug"@ {
        Some(Tone::Cyan)
    } else {
        None
    }
}

pub open spec fn spaces(n: nat) -> Seq<char>
    decreases n,
{
    if n == 0 {
        seq![]
    } else {
        spaces((n - 1) as nat).push(' ')
    }
}

/// The label centred in five columns; longer labels are kept whole.
pub open spec fn centered(l: Seq<char>) -> Seq<char> {
    if l.len() >= 5 {
        l
    } else {
        let pad = (5 - l.len()) as nat;
        spaces(pad / 2) + l + spaces((pad - pad / 2) as nat)
    }
}

pub open spec fn digit_of(d: nat) -> char {
    seq!['0', '1', '2', '3', '4', '5', '6', '7', '8', '9'][d as int]
}

pub open spec fn digits(n: nat) -> Seq<char>
    decreases n,
{
    if n < 10 {
        seq![digit_of(n)]
    } else {
        digits(n / 10).push(digit_of(n % 10))
    }
}

/// Decimal text of an integer, with a leading minus sign when negative.
pub open spec fn decimal(n: int) -> Seq<char> {
    if n < 0 {
        seq!['-'] + digits((-n) as nat)
    } else {
        digits(n as nat)
    }
}

/// The display line: time, centred level, the source location when both of its
/// parts are given, message and metadata.
pub open spec fn line_view(
    time: Seq<char>,
    level: Seq<char>,
    file: Option<Seq<char>>,
    line: Option<Seq<char>>,
    message: Seq<char>,
    meta: Seq<char>,
) -> Seq<char> {
    if file.is_some() && line.is_some() {
        time + "|"@ + centered(level) + "|"@ + file.unwrap() + ":"@ + line.unwrap() + ": "@
            + message + " "@ + meta
    } else {
        time + "|"@ + centered(level) + ": "@ + message + " "@ + meta
    }
}

/// A source location is shown only when both of its parts are present: with
/// either one missing the line has the layout without a location.
pub proof fn lemma_half_source_hidden(
    time: Seq<char>,
    level: Seq<char>,
    file: Option<Seq<char>>,
    line: Option<Seq<char>>,
    message: Seq<char>,
    meta: Seq<char>,
)
    requires
        file.is_none() || line.is_none(),
    ensures
        line_view(time, level, file, line, message, meta) == line_view(
            time,
            level,
            None,
            None,
            message,
            meta,
        ),
        line_view(time, level, file, line, message, meta) == time + "|"@ + centered(level)
            + ": "@ + message + " "@ + meta,
{
}

pub fn str_eq(a: &str, b: &str) -> (r: bool)
    ensures
        r == (a@ == b@),
{
    let n = a.unicode_len();
    if n != b.unicode_len() {
        return false;
    }
    let mut i: usize = 0;
    while i < n
        invariant
            n == a@.len(),
            n == b@.len(),
            i <= n,
            forall|k: int| 0 <= k < i ==> a@[k] == b@[k],
        decreases n - i,
    {
        if a.get_char(i) != b.get_char(i) {
            return false;
        }
        i += 1;
    }
    assert(a@ =~= b@);
    true
}

/// The colour of a severity label, if it is one of the known four.
pub fn get_color(level: &str) -> (r: Option<Tone>)
    ensures
        r == level_tone(level@),
{
    if str_eq(level, "info") {
        Some(Tone::Green)
    } else if str_eq(level, "warn") {
        Some(Tone::Yellow)
    } else if str_eq(level, "error") {
        Some(Tone::Red)
    } else if str_eq(level, "debug") {
        Some(Tone::Cyan)
    } else {
        None
    }
}

fn spaces_text(n: usize) -> (r: String)
    ensures
        r@ == spaces(n as nat),
{
    let mut s = String::new();
    let mut i: usize = 0;
    while i < n
        invariant
            i <= n,
            s@ == spaces(i as nat),
        decreases n - i,
    {
        s.append(" ");
        proof {
            reveal_strlit(" ");
            assert(s@ =~= spaces((i + 1) as nat));
        }
        i += 1;
    }
    s
}

/// The label centred in five columns, as `{:^5}` pads it.
pub fn center_level(level: &str) -> (r: String)
    ensures
        r@ == centered(level@),
{
    let n = level.unicode_len();
    if n >= 5 {
        return String::from_str(level);
    }
    let pad = 5 - n;
    let mut s = spaces_text(pad / 2);
    s.append(level);
    let tail = spaces_text(pad - pad / 2);
    s.append(tail.as_str());
    s
}

fn digit_text(d: u32) -> (r: &'static str)
    requires
        d < 10,
    ensures
        r@ == seq![digit_of(d as nat)],
{
    proof {
        reveal_strlit("0"); reveal_strlit("1"); reveal_strlit("2"); reveal_strlit("3");
        reveal_strlit("4"); reveal_strlit("5"); reveal_strlit("6"); reveal_strlit("7");
        reveal_strlit("8"); reveal_strlit("9");
    }
    match d {
        0 => "0",
        1 => "1",
        2 => "2",
        3 => "3",
        4 => "4",
        5 => "5",
        6 => "6",
        7 => "7",
        8 => "8",
        _ => "9",
    }
}

fn digits_text(n: u32) -> (r: String)
    ensures
        r@ == digits(n as nat),
    decreases n,
{
    if n < 10 {
        String::from_str(digit_text(n))
    } else {
        let mut s = digits_text(n / 10);
        s.append(digit_text(n % 10));
        s
    }
}

/// Decimal text of a line number.
pub fn decimal_text(n: i32) -> (r: String)
    ensures
        r@ == decimal(n as int),
{
    if n < 0 {
        let m: u32 = (0 - (n as i64)) as u32;
        let d = digits_text(m);
        proof { reveal_strlit("-"); }
        let s = String::from_str("-");
        let r = s.concat(d.as_str());
        assert(r@ =~= decimal(n as int));
        r
    } else {
        digits_text(n as u32)
    }
}

/// Lays out one record from its already rendered parts; the source location
/// appears only when both the file and the line are given.
pub fn compose(
    time: &str,
    level: &str,
    file: Option<&str>,
    line: Option<&str>,
    message: &str,
    meta: &str,
) -> (r: String)
    ensures
        r@ == line_view(
            time@,
            level@,
            match file { Some(f) => Some(f@), None => None },
            match line { Some(l) => Some(l@), None => None },
            message@,
            meta@,
        ),
{
    let mut s = String::from_str(time);
    s.append("|");
    let c = center_level(level);
    s.append(c.as_str());
    match (file, line) {
        (Some(f), Some(l)) => {
            s.append("|");
            s.append(f);
            s.append(":");
            s.append(l);
        },
        _ => {},
    }
    s.append(": ");
    s.append(message);
    s.append(" ");
    s.append(meta);
    s
}

} // verus!
