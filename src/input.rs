use vstd::prelude::*;
use vstd::string::StringExecFns;
use core::marker::PhantomData;
use crate::validator::{Validator, AcceptAll, Check, lemma_check_by_function};
use crate::text::{FromLine, trim_line, trim_seq};

verus! {

/// The rejection message of a configuration that was never given one.
pub open spec fn default_rejection() -> Seq<char> {
    "Invalid input"@
}

/// What is shown when a line cannot be converted: a fixed framing followed
/// by the conversion error's own description.
pub open spec fn format_notice(description: Seq<char>) -> Seq<char> {
    "Format error: "@ + description
}

/// The text written before each attempt: the prompt and a separator.
pub open spec fn prompt_text(msg: Seq<char>) -> Seq<char> {
    msg + ": "@
}

/// What one attempt came to.
#[derive(Debug, PartialEq, Eq)]
pub enum Outcome<T> {
    /// The line converted and the check accepted the value.
    Accepted(T),
    /// The line converted but the check refused the value; holds the
    /// rejection message to show.
    Rejected(String),
    /// The line could not be had or converted; holds the message to show.
    Malformed(String),
}

impl<T> Outcome<T> {
    /// The message an attempt that did not succeed shows; empty for one
    /// that did.
    pub open spec fn notice_view(self) -> Seq<char> {
        match self {
            Outcome::Accepted(_) => Seq::empty(),
            Outcome::Rejected(m) => m@,
            Outcome::Malformed(m) => m@,
        }
    }
}

/// A prompted read: the prompt, the acceptance check over parsed values,
/// and the message shown when the check refuses one.
pub struct Input<'a, T, F = AcceptAll> {
    msg: &'a str,
    predicate: F,
    err_msg: &'a str,
    target: PhantomData<T>,
}

impl<'a, T> Input<'a, T, AcceptAll> {
    /// A configuration with the given prompt that accepts every parsed value
    /// and rejects with the default message.
    pub fn new(msg: &'a str) -> (r: Self)
        ensures
            r.prompt_view() == msg@,
            r.rejection_view() == default_rejection(),
            r.checker() == AcceptAll,
    {
        Input { msg, predicate: AcceptAll, err_msg: "Invalid input", target: PhantomData }
    }
}

impl<'a, T, F> Input<'a, T, F> {
    /// The prompt text.
    pub closed spec fn prompt_view(&self) -> Seq<char> {
        self.msg@
    }

    /// The message shown when the check refuses a value.
    pub closed spec fn rejection_view(&self) -> Seq<char> {
        self.err_msg@
    }

    /// The acceptance check.
    pub closed spec fn checker(&self) -> F {
        self.predicate
    }

    /// Whether `self` is `base` with its rejection message replaced by `m`.
    pub open spec fn messaged_from(&self, base: &Input<'a, T, F>, m: Seq<char>) -> bool {
        &&& self.prompt_view() == base.prompt_view()
        &&& self.rejection_view() == m
        &&& self.checker() == base.checker()
    }

    /// Replaces the acceptance check by `predicate`; the prompt and message
    /// are kept.
    pub fn validate<G: Fn(&T) -> bool>(self, predicate: G) -> (r: Input<'a, T, Check<T, G>>)
        requires
            forall|v: &T| call_requires(predicate, (v,)),
        ensures
            r.validated_from(&self, predicate),
    {
        Input {
            msg: self.msg,
            predicate: Check::new(predicate),
            err_msg: self.err_msg,
            target: PhantomData,
        }
    }

    /// Replaces the rejection message; the prompt and check are kept.
    pub fn err_msg(self, err_msg: &'a str) -> (r: Self)
        ensures
            r.messaged_from(&self, err_msg@),
    {
        Input { msg: self.msg, predicate: self.predicate, err_msg, target: PhantomData }
    }

    /// The prompt followed by its separator, as written before each attempt.
    pub fn prompt_line(&self) -> (r: String)
        ensures
            r@ == prompt_text(self.prompt_view()),
    {
        let mut s = String::from_str(self.msg);
        s.append(": ");
        s
    }

    /// The prompt text.
    pub fn prompt(&self) -> (r: &'a str)
        ensures
            r@ == self.prompt_view(),
    {
        self.msg
    }

    /// The message shown when the check refuses a value.
    pub fn error_message(&self) -> (r: &'a str)
        ensures
            r@ == self.rejection_view(),
    {
        self.err_msg
    }
}

impl<'a, T, H: Fn(&T) -> bool> Input<'a, T, Check<T, H>> {
    /// Whether `self` is `base` with its check replaced by a call of `p`.
    pub open spec fn validated_from<G>(&self, base: &Input<'a, T, G>, p: H) -> bool {
        &&& self.prompt_view() == base.prompt_view()
        &&& self.rejection_view() == base.rejection_view()
        &&& self.checker().function() == p
    }
}

impl<'a, T, F: Validator<T>> Input<'a, T, F> {
    /// Decides an attempt from its conversion result: a conversion error is
    /// framed as a format error and the check is not asked; a converted value
    /// is handed to the check, and is either accepted or answered with the
    /// rejection message verbatim.
    pub fn judge(&self, parsed: Result<T, String>) -> (r: Outcome<T>)
        ensures
            match parsed {
                Err(e) => r is Malformed && r->Malformed_0@ == format_notice(e@),
                Ok(v) => match r {
                    Outcome::Accepted(w) => w == v && self.checker().verdict(&v, true),
                    Outcome::Rejected(m) => m@ == self.rejection_view()
                        && self.checker().verdict(&v, false),
                    Outcome::Malformed(_) => false,
                },
            },
    {
        match parsed {
            Err(e) => {
                let mut m = String::from_str("Format error: ");
                m.append(e.as_str());
                Outcome::Malformed(m)
            },
            Ok(v) => {
                if self.predicate.accepts(&v) {
                    Outcome::Accepted(v)
                } else {
                    Outcome::Rejected(String::from_str(self.err_msg))
                }
            },
        }
    }
}

impl<'a, T: FromLine, F: Validator<T>> Input<'a, T, F> {
    /// Whether `o` is a possible outcome of an attempt on `line`.
    pub open spec fn attempt_spec(&self, line: Seq<char>, o: Outcome<T>) -> bool {
        let t = trim_seq(line);
        match T::denoted(t) {
            None => o is Malformed && o->Malformed_0@ == format_notice(T::parse_error(t)),
            Some(x) => match o {
                Outcome::Accepted(w) => w@ == x && self.checker().verdict(&w, true),
                Outcome::Rejected(m) => m@ == self.rejection_view() && exists|w: T|
                    w@ == x && #[trigger] self.checker().verdict(&w, false),
                Outcome::Malformed(_) => false,
            },
        }
    }

    /// Whether an attempt on `line` may fail and show `m`.
    pub open spec fn refused_with(&self, line: Seq<char>, m: Seq<char>) -> bool {
        exists|o: Outcome<T>|
            #[trigger] self.attempt_spec(line, o) && !(o is Accepted) && o.notice_view() == m
    }

    /// Whether reading from `lines` may accept `value` after showing
    /// `notices`: each line before the accepted one was refused with the
    /// notice at its position, and with no value accepted every line was.
    pub open spec fn read_result(
        &self,
        lines: Seq<String>,
        value: Option<T>,
        notices: Seq<String>,
    ) -> bool {
        &&& notices.len() <= lines.len()
        &&& value is None ==> notices.len() == lines.len()
        &&& value is Some ==> notices.len() < lines.len() && self.attempt_spec(
            lines[notices.len() as int]@,
            Outcome::Accepted(value->Some_0),
        )
        &&& forall|i: int|
            0 <= i < notices.len() ==> self.refused_with(lines[i]@, #[trigger] notices[i]@)
    }

    /// One attempt on a line as read: white space is trimmed at both ends,
    /// the rest converted, and the result judged.
    pub fn attempt(&self, line: &str) -> (r: Outcome<T>)
        ensures
            self.attempt_spec(line@, r),
    {
        let parsed = T::from_line(trim_line(line));
        self.judge(parsed)
    }

    /// The read loop run over a given sequence of lines: attempts are made
    /// in order until one is accepted. Returns the accepted value, if any
    /// line was, and the messages shown for the attempts before it, one per
    /// line.
    pub fn read_from(&self, lines: &Vec<String>) -> (r: (Option<T>, Vec<String>))
        ensures
            self.read_result(lines@, r.0, r.1@),
    {
        let mut notices: Vec<String> = Vec::new();
        let mut i: usize = 0;
        while i < lines.len()
            invariant
                i <= lines.len(),
                notices.len() == i,
                forall|j: int| 0 <= j < i ==> self.refused_with(lines[j]@, #[trigger] notices[j]@),
            decreases lines.len() - i,
        {
            let o = self.attempt(lines[i].as_str());
            let ghost g = o;
            match o {
                Outcome::Accepted(v) => {
                    return (Some(v), notices);
                },
                Outcome::Rejected(m) => {
                    notices.push(m);
                },
                Outcome::Malformed(m) => {
                    notices.push(m);
                },
            }
            assert(self.attempt_spec(lines[i as int]@, g));
            i = i + 1;
        }
        (None, notices)
    }
}

/// A line whose trimmed text converts to a value that the check can only
/// accept is accepted in one attempt, with exactly that value.
pub proof fn lemma_accepted_in_one_attempt<'a, T: FromLine, F: Validator<T>>(
    c: &Input<'a, T, F>,
    line: Seq<char>,
    o: Outcome<T>,
)
    requires
        c.attempt_spec(line, o),
        T::denoted(trim_seq(line)) is Some,
        forall|w: T| !c.checker().verdict(&w, false),
    ensures
        o is Accepted,
        o->Accepted_0@ == T::denoted(trim_seq(line))->Some_0,
{
}

/// Reading from lines whose first converts to a value that the check can
/// only accept returns that value at once, with nothing shown.
pub proof fn lemma_no_needless_retry<'a, T: FromLine, F: Validator<T>>(
    c: &Input<'a, T, F>,
    lines: Seq<String>,
    value: Option<T>,
    notices: Seq<String>,
)
    requires
        c.read_result(lines, value, notices),
        lines.len() > 0,
        T::denoted(trim_seq(lines[0]@)) is Some,
        forall|w: T| !c.checker().verdict(&w, false),
    ensures
        notices.len() == 0,
        value is Some,
        value->Some_0@ == T::denoted(trim_seq(lines[0]@))->Some_0,
{
    if notices.len() > 0 {
        assert(c.refused_with(lines[0]@, notices[0]@));
    }
}

/// A line whose trimmed text does not convert is reported as a format error
/// carrying the conversion's description, whatever the check and the
/// rejection message are: the check has no say.
pub proof fn lemma_malformed_ignores_check<'a, T: FromLine, F: Validator<T>, G: Validator<T>>(
    c: &Input<'a, T, F>,
    d: &Input<'a, T, G>,
    line: Seq<char>,
    o: Outcome<T>,
)
    requires
        T::denoted(trim_seq(line)) is None,
        c.attempt_spec(line, o),
    ensures
        o is Malformed,
        o->Malformed_0@ == format_notice(T::parse_error(trim_seq(line))),
        d.attempt_spec(line, o),
{
}

/// A line that converts to a value that the check can only refuse is
/// answered with the configured rejection message, verbatim.
pub proof fn lemma_rejection_verbatim<'a, T: FromLine, F: Validator<T>>(
    c: &Input<'a, T, F>,
    line: Seq<char>,
    o: Outcome<T>,
)
    requires
        c.attempt_spec(line, o),
        T::denoted(trim_seq(line)) is Some,
        forall|w: T| !c.checker().verdict(&w, true),
    ensures
        o is Rejected,
        o->Rejected_0@ == c.rejection_view(),
{
}

/// Replacing the check twice leaves only the last one in effect.
pub proof fn lemma_last_validator_wins<'a, T, F, G: Fn(&T) -> bool, H: Fn(&T) -> bool>(
    c0: &Input<'a, T, F>,
    c1: &Input<'a, T, Check<T, G>>,
    c2: &Input<'a, T, Check<T, H>>,
    p: G,
    q: H,
)
    requires
        c1.validated_from(c0, p),
        c2.validated_from(c1, q),
    ensures
        c2.validated_from(c0, q),
{
}

/// Two configurations with the same prompt, the same rejection message and
/// checks that call the same function decide every line alike: a check that
/// was replaced leaves nothing behind.
pub proof fn lemma_settings_decide<'a, T: FromLine, H: Fn(&T) -> bool>(
    c: &Input<'a, T, Check<T, H>>,
    d: &Input<'a, T, Check<T, H>>,
    line: Seq<char>,
    o: Outcome<T>,
)
    requires
        c.rejection_view() == d.rejection_view(),
        c.checker().function() == d.checker().function(),
    ensures
        c.attempt_spec(line, o) == d.attempt_spec(line, o),
{
    lemma_check_by_function(c.checker(), d.checker());
}

/// Replacing the rejection message twice leaves only the last one in effect.
pub proof fn lemma_last_message_wins<'a, T, F>(
    c0: &Input<'a, T, F>,
    c1: &Input<'a, T, F>,
    c2: &Input<'a, T, F>,
    m: Seq<char>,
    n: Seq<char>,
)
    requires
        c1.messaged_from(c0, m),
        c2.messaged_from(c1, n),
    ensures
        c2.messaged_from(c0, n),
{
}

/// A configuration whose check was never replaced accepts every value that
/// a line converts to.
pub proof fn lemma_default_accepts_all<'a, T: FromLine>(
    c: &Input<'a, T, AcceptAll>,
    line: Seq<char>,
    o: Outcome<T>,
)
    requires
        c.attempt_spec(line, o),
        T::denoted(trim_seq(line)) is Some,
    ensures
        o is Accepted,
        o->Accepted_0@ == T::denoted(trim_seq(line))->Some_0,
{
}

/// Two lines that differ only in white space at their ends have the same
/// possible outcomes.
pub proof fn lemma_outer_space_ignored<'a, T: FromLine, F: Validator<T>>(
    c: &Input<'a, T, F>,
    a: Seq<char>,
    b: Seq<char>,
    o: Outcome<T>,
)
    requires
        trim_seq(a) == trim_seq(b),
    ensures
        c.attempt_spec(a, o) == c.attempt_spec(b, o),
{
}

} // verus!
