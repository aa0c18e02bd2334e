use vstd::prelude::*;

verus! {

use crate::outside::{json_compact, local_rfc3339_millis, paint, rfc3339_valid};
use crate::text::{
    compose, decimal, decimal_text, ends_with_reset, get_color, lemma_painted_frame, level_tone,
    line_view, painted, rfc3339_millis_layout, style_of, Tone,
};

/// One decoded log entry.
pub struct LogRecord {
    pub level: String,
    pub message: String,
    pub timestamp: String,
    pub file: Option<String>,
    pub line: Option<i32>,
    pub metadata: Option<serde_json::Value>,
}

pub open spec fn has_source(rec: LogRecord) -> bool {
    rec.file.is_some() && rec.line.is_some()
}

/// `r` is the display of `rec` for the time text `x`, its coloured form `t`,
/// the coloured file `f` and line `l`, and the metadata text `m`.
pub open spec fn shown(
    rec: LogRecord,
    x: Seq<char>,
    t: Seq<char>,
    f: Seq<char>,
    l: Seq<char>,
    m: Seq<char>,
    r: Seq<char>,
) -> bool {
    &&& (if rfc3339_valid(rec.timestamp@) {
        rfc3339_millis_layout(x)
    } else {
        x == rec.timestamp@
    })
    &&& painted(t, x, Tone::Magenta)
    &&& (if rec.metadata.is_none() {
        m == Seq::<char>::empty()
    } else {
        m.len() > 0 && !m.contains('\n')
    })
    &&& (has_source(rec) ==> painted(f, rec.file.unwrap()@, Tone::Blue) && painted(
        l,
        decimal(rec.line.unwrap() as int),
        Tone::Blue,
    ))
    &&& r == line_view(
        t,
        rec.level@,
        if has_source(rec) { Some(f) } else { None },
        if has_source(rec) { Some(l) } else { None },
        rec.message@,
        m,
    )
}

/// `r` is a display of `rec`, before severity colouring.
pub open spec fn displays(rec: LogRecord, r: Seq<char>) -> bool {
    exists|x: Seq<char>, t: Seq<char>, f: Seq<char>, l: Seq<char>, m: Seq<char>|
        #[trigger] shown(rec, x, t, f, l, m, r)
}

/// `r` is a display of `rec`, coloured by its severity when that is known.
pub open spec fn rendered(rec: LogRecord, r: Seq<char>) -> bool {
    exists|inner: Seq<char>|
        #[trigger] displays(rec, inner) && match level_tone(rec.level@) {
            Some(c) => painted(r, inner, c),
            None => r == inner,
        }
}

/// A record with one of the four known severities is shown either plainly or
/// wholly in that severity's colour: the line opens with the colour's escape
/// sequence and closes with the reset. Any other label leaves the line
/// uncoloured.
pub proof fn lemma_severity_frame(rec: LogRecord, r: Seq<char>)
    requires
        rendered(rec, r),
    ensures
        exists|inner: Seq<char>|
            #[trigger] displays(rec, inner) && match level_tone(rec.level@) {
                Some(c) => r == inner || (r.subrange(0, style_of(c).len() as int) == style_of(c)
                    && ends_with_reset(r)),
                None => r == inner,
            },
{
    let inner = choose|inner: Seq<char>|
        #[trigger] displays(rec, inner) && match level_tone(rec.level@) {
            Some(c) => painted(r, inner, c),
            None => r == inner,
        };
    match level_tone(rec.level@) {
        Some(c) => {
            if r != inner {
                lemma_painted_frame(r, inner, c);
            }
        },
        None => {},
    }
}

/// The output for one input line: the line itself where it did not decode.
pub open spec fn line_out(line: Seq<char>, decoded: Option<LogRecord>, r: Seq<char>) -> bool {
    match decoded {
        Some(rec) => rendered(rec, r),
        None => r == line,
    }
}

/// The timestamp in local time at millisecond precision, or the text unchanged
/// where it is not an RFC 3339 date-time.
pub fn to_local_time(timestamp: &str) -> (r: String)
    ensures
        !rfc3339_valid(timestamp@) ==> r@ == timestamp@,
        rfc3339_valid(timestamp@) ==> rfc3339_millis_layout(r@),
{
    let local = local_rfc3339_millis(timestamp);
    time_or_original(timestamp, local)
}

/// The local rendering where there is one, else the timestamp as given.
pub fn time_or_original(timestamp: &str, local: Option<String>) -> (r: String)
    ensures
        r@ == match local {
            Some(t) => t@,
            None => timestamp@,
        },
{
    match local {
        Some(t) => t,
        None => String::from_str(timestamp),
    }
}

/// The serialised metadata where it could be written, else empty text.
pub fn metadata_or_empty(serialized: Option<String>) -> (r: String)
    ensures
        r@ == match serialized {
            Some(s) => s@,
            None => Seq::<char>::empty(),
        },
{
    match serialized {
        Some(s) => s,
        None => String::new(),
    }
}

/// Compact JSON text of the metadata; empty where there is none.
pub fn metadata_to_string(metadata: &Option<serde_json::Value>) -> (r: String)
    ensures
        metadata.is_none() ==> r@ == Seq::<char>::empty(),
        metadata.is_some() ==> r@.len() > 0 && !r@.contains('\n'),
{
    match metadata {
        Some(v) => metadata_or_empty(json_compact(v)),
        None => String::new(),
    }
}

impl LogRecord {
    /// The display line of the record, before severity colouring.
    pub fn format(&self) -> (r: String)
        ensures
            displays(*self, r@),
    {
        let meta = metadata_to_string(&self.metadata);
        let time = to_local_time(self.timestamp.as_str());
        let t = paint(time.as_str(), Tone::Magenta);
        match &self.file {
            Some(fl) => match self.line {
                Some(n) => {
                    let f = paint(fl.as_str(), Tone::Blue);
                    let d = decimal_text(n);
                    let l = paint(d.as_str(), Tone::Blue);
                    let r = compose(
                        t.as_str(),
                        self.level.as_str(),
                        Some(f.as_str()),
                        Some(l.as_str()),
                        self.message.as_str(),
                        meta.as_str(),
                    );
                    assert(shown(*self, time@, t@, f@, l@, meta@, r@));
                    r
                },
                None => {
                    let r = compose(
                        t.as_str(),
                        self.level.as_str(),
                        None,
                        None,
                        self.message.as_str(),
                        meta.as_str(),
                    );
                    assert(shown(*self, time@, t@, t@, t@, meta@, r@));
                    r
                },
            },
            None => {
                let r = compose(
                    t.as_str(),
                    self.level.as_str(),
                    None,
                    None,
                    self.message.as_str(),
                    meta.as_str(),
                );
                assert(shown(*self, time@, t@, t@, t@, meta@, r@));
                r
            },
        }
    }

    /// The display line, coloured by the record's severity when it is known.
    pub fn render(&self) -> (r: String)
        ensures
            rendered(*self, r@),
    {
        let s = self.format();
        match get_color(self.level.as_str()) {
            Some(c) => {
                let r = paint(s.as_str(), c);
                assert(displays(*self, s@));
                r
            },
            None => s,
        }
    }
}

/// The output for one input line, given what it decoded to.
pub fn render_line(line: &str, decoded: &Option<LogRecord>) -> (r: String)
    ensures
        line_out(line@, *decoded, r@),
{
    match decoded {
        Some(rec) => rec.render(),
        None => String::from_str(line),
    }
}

/// One output line per input line, in input order.
pub fn render_lines(lines: &Vec<String>, decoded: &Vec<Option<LogRecord>>) -> (r: Vec<String>)
    requires
        lines@.len() == decoded@.len(),
    ensures
        r@.len() == lines@.len(),
        forall|i: int| 0 <= i < r@.len() ==> line_out(lines@[i]@, decoded@[i], #[trigger] r@[i]@),
{
    let mut out: Vec<String> = Vec::new();
    let mut i: usize = 0;
    while i < lines.len()
        invariant
            lines@.len() == decoded@.len(),
            i <= lines@.len(),
            out@.len() == i,
            forall|k: int| 0 <= k < i ==> line_out(lines@[k]@, decoded@[k], #[trigger] out@[k]@),
        decreases lines@.len() - i,
    {
        let s = render_line(lines[i].as_str(), &decoded[i]);
        out.push(s);
        i += 1;
    }
    out
}

} // verus!
