use vstd::prelude::*;

use crate::text::{decimal, push_decimal};

verus! {

/// An error body of the service, in the shape of RFC 7807.
pub struct ProblemDetail {
    pub problem_type: Option<String>,
    pub title: Option<String>,
    pub status: u16,
    pub detail: Option<String>,
    pub instance: Option<String>,
    pub response_body: Option<String>,
}

/// `prefix` and the text, or nothing when there is no text.
pub open spec fn part(prefix: Seq<char>, text: Option<String>) -> Seq<char> {
    match text {
        Some(t) => prefix + t@,
        None => Seq::empty(),
    }
}

fn push_part(out: &mut String, prefix: &str, text: &Option<String>)
    ensures
        final(out)@ == old(out)@ + part(prefix@, *text),
{
    match text {
        Some(t) => {
            out.append(prefix);
            out.append(t.as_str());
        },
        None => {},
    }
    assert(out@ =~= old(out)@ + part(prefix@, *text));
}

impl ProblemDetail {
    /// The status, then the title, instance and detail when given, then the
    /// response body on a line of its own.
    pub fn describe(&self) -> (r: String)
        ensures
            r@ == decimal(self.status as nat) + part(" "@, self.title) + part(" - "@, self.instance)
                + part(" - "@, self.detail) + part("\n"@, self.response_body),
    {
        let mut out = String::new();
        push_decimal(&mut out, self.status as u64);
        push_part(&mut out, " ", &self.title);
        push_part(&mut out, " - ", &self.instance);
        push_part(&mut out, " - ", &self.detail);
        push_part(&mut out, "\n", &self.response_body);
        assert(out@ =~= decimal(self.status as nat) + part(" "@, self.title) + part(" - "@, self.instance)
            + part(" - "@, self.detail) + part("\n"@, self.response_body));
        out
    }
}

} // verus!
