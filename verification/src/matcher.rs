//! The failure matcher: builds the device-specific failure pattern from the
//! configured bus identifier (with literal dots escaped) and tests kernel log
//! messages against it through a compiled regular expression.

use vstd::prelude::*;
use vstd::string::*;

verus! {

/// A single character of the bus identifier as it appears in the pattern:
/// a literal dot is escaped, every other character stands for itself.
pub open spec fn escaped_char(c: char) -> Seq<char> {
    if c == '.' {
        seq!['\\', '.']
    } else {
        seq![c]
    }
}

/// The bus identifier with every literal dot escaped.
pub open spec fn escape_dots(s: Seq<char>) -> Seq<char>
    decreases s.len(),
{
    if s.len() == 0 {
        Seq::empty()
    } else {
        escape_dots(s.drop_last()) + escaped_char(s.last())
    }
}

/// The full failure pattern for a bus identifier: the driver name, the
/// escaped identifier, and the fixed driver-error phrase.
pub open spec fn failure_pattern(bus_id: Seq<char>) -> Seq<char> {
    "xhci_hcd "@ + escape_dots(bus_id) + ": WARN waiting for error on ep to be cleared"@
}

/// Builds the failure pattern text for the given bus identifier.
pub fn build_failure_pattern(bus_id: &str) -> (r: String)
    ensures
        r@ == failure_pattern(bus_id@),
{
    let mut p = String::from_str("xhci_hcd ");
    let n = bus_id.unicode_len();
    let mut i: usize = 0;
    while i < n
        invariant
            i <= n,
            n == bus_id@.len(),
            p@ == "xhci_hcd "@ + escape_dots(bus_id@.subrange(0, i as int)),
        decreases n - i,
    {
        let c = bus_id.get_char(i);
        proof {
            assert(bus_id@.subrange(0, i + 1 as int).drop_last() =~= bus_id@.subrange(
                0,
                i as int,
            ));
            assert(bus_id@.subrange(0, i + 1 as int).last() == c);
        }
        if c == '.' {
            p.append("\\.");
            proof {
                reveal_strlit("\\.");
                assert(("\\.")@ =~= escaped_char(c));
            }
        } else {
            let piece = bus_id.substring_char(i, i + 1);
            p.append(piece);
            proof {
                assert(bus_id@.subrange(i as int, i + 1 as int) =~= escaped_char(c));
            }
        }
        i = i + 1;
    }
    proof {
        assert(bus_id@.subrange(0, n as int) =~= bus_id@);
    }
    p.append(": WARN waiting for error on ep to be cleared");
    p
}

/// The pattern string a compiled regular expression was built from
/// (regex::Regex::as_str returns it unchanged).
pub uninterp spec fn compiled_pattern(re: regex::Regex) -> Seq<char>;

/// Whether regex::Regex::new accepts a pattern; it is deterministic in the
/// pattern text.
pub uninterp spec fn pattern_accepted(pattern: Seq<char>) -> bool;

/// Whether a pattern matches anywhere in a text; a function of the pattern
/// and the text alone.
pub uninterp spec fn regex_match(pattern: Seq<char>, text: Seq<char>) -> bool;

#[verifier::external_type_specification]
#[verifier::external_body]
pub struct ExRegex(regex::Regex);

/// Relies on regex::Regex::new: it is deterministic in the pattern, fails
/// exactly on the patterns it rejects, and the compiled value keeps the
/// pattern string it was built from.
#[verifier::external_body]
fn regex_new(pattern: &str) -> (r: Option<regex::Regex>)
    ensures
        r is Some <==> pattern_accepted(pattern@),
        r matches Some(re) ==> compiled_pattern(re) == pattern@,
{
    regex::Regex::new(pattern).ok()
}

/// Relies on regex::Regex::is_match: true if and only if the compiled
/// pattern matches anywhere in the text, a function of the pattern and the
/// text alone.
#[verifier::external_body]
fn regex_is_match(re: &regex::Regex, text: &str) -> (r: bool)
    ensures
        r == regex_match(compiled_pattern(*re), text@),
{
    re.is_match(text)
}

/// The failure matcher: the failure pattern of one bus identifier, compiled
/// once at construction and shared read-only by all match calls.
pub struct FailureMatcher {
    re: regex::Regex,
    bus_id: String,
}

impl View for FailureMatcher {
    type V = Seq<char>;

    /// A matcher is described by the bus identifier it was built for.
    closed spec fn view(&self) -> Seq<char> {
        self.bus_id@
    }
}

impl FailureMatcher {
    #[verifier::type_invariant]
    spec fn wf(self) -> bool {
        compiled_pattern(self.re) == failure_pattern(self.bus_id@)
    }

    /// Compiles the failure pattern for the given bus identifier; fails only
    /// when the pattern built from it is not a valid regular expression.
    pub fn new(bus_id: String) -> (r: Option<FailureMatcher>)
        ensures
            r is Some <==> pattern_accepted(failure_pattern(bus_id@)),
            r matches Some(m) ==> m@ == bus_id@,
    {
        let pattern = build_failure_pattern(bus_id.as_str());
        match regex_new(pattern.as_str()) {
            Some(re) => Some(FailureMatcher { re, bus_id }),
            None => None,
        }
    }

    /// Tests one log message against the failure pattern. Pure: the result
    /// is a function of the configured bus identifier and the message alone,
    /// and the call mutates nothing.
    pub fn is_failure(&self, message: &str) -> (r: bool)
        ensures
            r == regex_match(failure_pattern(self@), message@),
    {
        proof {
            use_type_invariant(self);
        }
        regex_is_match(&self.re, message)
    }
}

/// The matcher is idempotent: two match results taken for the same bus
/// identifier and the same message are always equal.
pub proof fn lemma_match_deterministic(bus_id: Seq<char>, message: Seq<char>, r1: bool, r2: bool)
    requires
        r1 == regex_match(failure_pattern(bus_id), message),
        r2 == regex_match(failure_pattern(bus_id), message),
    ensures
        r1 == r2,
{
}

} // verus!
