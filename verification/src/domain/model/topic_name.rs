use vstd::prelude::*;
use vstd::std_specs::cmp::PartialEqSpecImpl;
use vstd::std_specs::convert::FromSpecImpl;

verus! {

/// The name of a topic: a non-empty string, fixed once constructed.
#[derive(Debug)]
pub struct TopicName {
    value: String,
}

impl View for TopicName {
    type V = Seq<char>;

    closed spec fn view(&self) -> Seq<char> {
        self.value@
    }
}

impl TopicName {
    #[verifier::type_invariant]
    spec fn non_empty(self) -> bool {
        self.value@.len() > 0
    }

    /// Accepts `value` as a topic name exactly when it is not empty.
    pub fn new(value: &str) -> (name: Option<TopicName>)
        ensures
            name is Some <==> value@.len() > 0,
            name matches Some(n) ==> n@ == value@,
    {
        if value.unicode_len() == 0 {
            None
        } else {
            Some(TopicName { value: String::from_str(value) })
        }
    }

    pub fn as_str(&self) -> (s: &str)
        ensures
            s@ == self@,
            s@.len() > 0,
    {
        proof {
            use_type_invariant(self);
        }
        self.value.as_str()
    }
}

impl Clone for TopicName {
    fn clone(&self) -> (copy: Self)
        ensures
            copy@ == self@,
    {
        proof {
            use_type_invariant(self);
        }
        TopicName { value: self.value.clone() }
    }
}

impl PartialEq for TopicName {
    fn eq(&self, other: &TopicName) -> (same: bool) {
        self.value == other.value
    }
}

impl PartialEqSpecImpl for TopicName {
    open spec fn obeys_eq_spec() -> bool {
        true
    }

    open spec fn eq_spec(&self, other: &TopicName) -> bool {
        self@ == other@
    }
}

impl From<TopicName> for String {
    fn from(t: TopicName) -> (s: String)
        ensures
            s@ == t@,
    {
        t.value
    }
}

impl FromSpecImpl<TopicName> for String {
    open spec fn obeys_from_spec() -> bool {
        true
    }

    closed spec fn from_spec(t: TopicName) -> String {
        t.value
    }
}

impl From<&TopicName> for String {
    fn from(t: &TopicName) -> (s: String)
        ensures
            s@ == t@,
    {
        t.value.clone()
    }
}

impl FromSpecImpl<&TopicName> for String {
    open spec fn obeys_from_spec() -> bool {
        true
    }

    closed spec fn from_spec(t: &TopicName) -> String {
        t.value
    }
}

} // verus!
