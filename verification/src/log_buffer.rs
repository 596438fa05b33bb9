//! The bounded, filterable message buffer behind the debug view.
//!
//! A [`LogBuffer`] keeps the newest `max_lines` messages together with the
//! subset that matches the current filter, compared case-insensitively.
//! Reading messages from wherever they arrive is the caller's business; this
//! type only stores and filters them.

use vstd::prelude::*;

verus! {

/// The lowercase form of `s`, as `str::to_lowercase` computes it.
pub uninterp spec fn lower_of(s: Seq<char>) -> Seq<char>;

/// The text that lossy UTF-8 decoding makes of `bytes`, as
/// `String::from_utf8_lossy` computes it.
pub uninterp spec fn lossy_utf8_of(bytes: Seq<u8>) -> Seq<char>;

/// `needle` occurs in `haystack` as a contiguous run of characters.
pub open spec fn spec_contains(haystack: Seq<char>, needle: Seq<char>) -> bool {
    exists|i: int|
        0 <= i <= haystack.len() - needle.len() && #[trigger] haystack.subrange(
            i,
            i + needle.len(),
        ) == needle
}

/// Line `l` passes a filter whose lowercase form is `f`.
pub open spec fn line_matches(l: String, f: Seq<char>) -> bool {
    spec_contains(lower_of(l@), f)
}

/// The lines of `lines`, in order, that pass a filter whose lowercase form
/// is `f`.
pub open spec fn spec_filter_lines(lines: Seq<String>, f: Seq<char>) -> Seq<String>
    decreases lines.len(),
{
    if lines.len() == 0 {
        lines
    } else {
        let rest = spec_filter_lines(lines.drop_last(), f);
        if line_matches(lines.last(), f) {
            rest.push(lines.last())
        } else {
            rest
        }
    }
}

/// `lines` with its oldest line dropped once it has grown to `max` lines.
pub open spec fn spec_trim(lines: Seq<String>, max: int) -> Seq<String> {
    if lines.len() >= max && lines.len() > 0 {
        lines.drop_first()
    } else {
        lines
    }
}

/// Relies on str::to_lowercase: the result depends on the characters alone.
#[verifier::external_body]
fn to_lower(s: &str) -> (r: String)
    ensures
        r@ == lower_of(s@),
{
    s.to_lowercase()
}

/// Relies on str::contains with a `&str` pattern: true exactly when the
/// needle occurs as a contiguous substring of the haystack.
#[verifier::external_body]
fn str_contains(haystack: &str, needle: &str) -> (r: bool)
    ensures
        r == spec_contains(haystack@, needle@),
{
    haystack.contains(needle)
}

/// Relies on String::from_utf8_lossy: the decoded text depends on the bytes
/// alone.
#[verifier::external_body]
fn bytes_to_text(bytes: &Vec<u8>) -> (r: String)
    ensures
        r@ == lossy_utf8_of(bytes@),
{
    String::from_utf8_lossy(bytes.as_slice()).to_string()
}

/// Drops the oldest line, if there is one.
pub fn remove_first_line(lines: &mut Vec<String>)
    ensures
        final(lines)@ == (if old(lines)@.len() > 0 {
            old(lines)@.drop_first()
        } else {
            old(lines)@
        }),
{
    if lines.len() > 0 {
        lines.remove(0);
        proof {
            assert(old(lines)@.remove(0) =~= old(lines)@.drop_first());
        }
    }
}

/// The newest messages and the subset of them that passes the current
/// filter, each capped at `max_lines` lines.
pub struct LogBuffer {
    /// Current filter, held in its lowercase form.
    pub filter: String,
    /// The stored lines that pass `filter`, oldest first.
    pub filtered: Vec<String>,
    /// All stored lines, oldest first.
    pub buff: Vec<String>,
    /// Cap on the stored lines of each of the two vectors.
    pub max_lines: usize,
}

impl LogBuffer {
    /// An empty buffer with an empty filter, keeping at most `max_lines`
    /// lines.
    pub fn new(max_lines: usize) -> (r: LogBuffer)
        ensures
            r.filter@.len() == 0,
            r.filtered@.len() == 0,
            r.buff@.len() == 0,
            r.max_lines == max_lines,
    {
        LogBuffer { filter: String::new(), filtered: Vec::new(), buff: Vec::new(), max_lines }
    }

    /// Makes room for one more line in both vectors: whichever has reached
    /// `max_lines` loses its oldest line.
    pub fn handle_size_limit(&mut self)
        ensures
            final(self).buff@ == spec_trim(old(self).buff@, old(self).max_lines as int),
            final(self).filtered@ == spec_trim(old(self).filtered@, old(self).max_lines as int),
            final(self).filter == old(self).filter,
            final(self).max_lines == old(self).max_lines,
    {
        if self.buff.len() >= self.max_lines {
            remove_first_line(&mut self.buff);
        }
        if self.filtered.len() >= self.max_lines {
            remove_first_line(&mut self.filtered);
        }
    }

    /// Stores one line of text: it is appended to the message buffer (after
    /// making room) and, when its lowercase form contains the current
    /// filter, to the filtered lines as well.
    pub fn add_new_line(&mut self, msg_text: String)
        ensures
            final(self).buff@ == spec_trim(old(self).buff@, old(self).max_lines as int).push(
                msg_text,
            ),
            final(self).filtered@ == (if line_matches(msg_text, lower_of(old(self).filter@)) {
                spec_trim(old(self).filtered@, old(self).max_lines as int).push(msg_text)
            } else {
                spec_trim(old(self).filtered@, old(self).max_lines as int)
            }),
            final(self).filter == old(self).filter,
            final(self).max_lines == old(self).max_lines,
    {
        self.handle_size_limit();
        let lower_msg = to_lower(msg_text.as_str());
        let lower_filter = to_lower(self.filter.as_str());
        let is_match = str_contains(lower_msg.as_str(), lower_filter.as_str());
        self.buff.push(msg_text.clone());
        if is_match {
            self.filtered.push(msg_text);
        }
    }

    /// Stores one raw message, decoded as lossy UTF-8.
    pub fn add_new_message(&mut self, msg: Vec<u8>)
        ensures
            ({
                let text = lossy_utf8_of(msg@);
                let trimmed_buff = spec_trim(old(self).buff@, old(self).max_lines as int);
                let trimmed_filtered = spec_trim(old(self).filtered@, old(self).max_lines as int);
                &&& final(self).buff@.len() == trimmed_buff.len() + 1
                &&& final(self).buff@.subrange(0, trimmed_buff.len() as int) == trimmed_buff
                &&& final(self).buff@.last()@ == text
                &&& if spec_contains(lower_of(text), lower_of(old(self).filter@)) {
                    &&& final(self).filtered@.len() == trimmed_filtered.len() + 1
                    &&& final(self).filtered@.subrange(0, trimmed_filtered.len() as int)
                        == trimmed_filtered
                    &&& final(self).filtered@.last()@ == text
                } else {
                    final(self).filtered@ == trimmed_filtered
                }
            }),
            final(self).filter == old(self).filter,
            final(self).max_lines == old(self).max_lines,
    {
        let msg_text = bytes_to_text(&msg);
        let ghost trimmed_buff = spec_trim(self.buff@, self.max_lines as int);
        let ghost trimmed_filtered = spec_trim(self.filtered@, self.max_lines as int);
        self.add_new_line(msg_text);
        proof {
            assert(trimmed_buff.push(msg_text).subrange(0, trimmed_buff.len() as int)
                =~= trimmed_buff);
            assert(trimmed_filtered.push(msg_text).subrange(0, trimmed_filtered.len() as int)
                =~= trimmed_filtered);
        }
    }

    /// Applies a new filter, compared and stored in lowercase.
    ///
    /// A filter equal to the current one changes nothing. A filter that
    /// merely extends the current one narrows the already-filtered lines;
    /// any other filter is re-applied to the whole message buffer.
    pub fn apply_filter(&mut self, new_filter: String)
        ensures
            final(self).buff == old(self).buff,
            final(self).max_lines == old(self).max_lines,
            lower_of(new_filter@) == old(self).filter@ ==> *final(self) == *old(self),
            lower_of(new_filter@) != old(self).filter@ ==> {
                &&& final(self).filter@ == lower_of(new_filter@)
                &&& final(self).filtered@ == (if spec_contains(
                    lower_of(new_filter@),
                    old(self).filter@,
                ) {
                    spec_filter_lines(old(self).filtered@, lower_of(new_filter@))
                } else {
                    spec_filter_lines(old(self).buff@, lower_of(new_filter@))
                })
            },
    {
        let filter_normalized = to_lower(new_filter.as_str());
        if filter_normalized == self.filter {
            return ;
        }
        if str_contains(filter_normalized.as_str(), self.filter.as_str()) {
            // The new filter contains the old one, so only already-matching
            // lines can match it: narrowing the filtered lines is enough.
            self.filtered = filter_lines(&self.filtered, &filter_normalized);
        } else {
            self.filtered = filter_lines(&self.buff, &filter_normalized);
        }
        self.filter = filter_normalized;
    }
}

/// The lines of `lines`, in order, whose lowercase form contains `needle`
/// (itself already lowercase).
fn filter_lines(lines: &Vec<String>, needle: &String) -> (r: Vec<String>)
    ensures
        r@ == spec_filter_lines(lines@, needle@),
{
    let mut r: Vec<String> = Vec::new();
    let mut i: usize = 0;
    while i < lines.len()
        invariant
            i <= lines.len(),
            r@ == spec_filter_lines(lines@.subrange(0, i as int), needle@),
        decreases lines.len() - i,
    {
        let line = &lines[i];
        let lower_line = to_lower(line.as_str());
        if str_contains(lower_line.as_str(), needle.as_str()) {
            r.push(line.clone());
        }
        proof {
            let prev = lines@.subrange(0, i as int);
            let cur = lines@.subrange(0, i + 1 as int);
            assert(cur.drop_last() =~= prev);
            assert(cur.last() == lines@[i as int]);
        }
        i = i + 1;
    }
    proof {
        assert(lines@.subrange(0, lines@.len() as int) =~= lines@);
    }
    r
}

} // verus!
