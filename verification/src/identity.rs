//! Validated names for boxes, snapshots, hosts and sandboxes.
//!
//! A name is checked once, when it is made: every backend can then put it into
//! a path, a container name or a shell word without escaping it.

use vstd::prelude::*;

use crate::error::Error;
use crate::text;

verus! {

/// The longest name, in characters.
pub const LONGEST: usize = 64;

/// Whether a name may hold this character.
pub open spec fn is_name_character(character: char) -> bool {
    ||| 'A' <= character <= 'Z'
    ||| 'a' <= character <= 'z'
    ||| '0' <= character <= '9'
    ||| character == '.'
    ||| character == '_'
    ||| character == '-'
}

/// Whether a text is a name: not empty, not over-long, of permitted characters
/// only, and not one of the two names that every directory has.
pub open spec fn is_name(text: Seq<char>) -> bool {
    &&& 0 < text.len() <= LONGEST
    &&& forall|i: int| 0 <= i < text.len() ==> is_name_character(#[trigger] text[i])
    &&& text != seq!['.']
    &&& text != seq!['.', '.']
}

/// A name is one component of a path and one word of a shell: it holds no
/// separator, no white space, and nothing that a shell would expand or quote.
pub proof fn a_name_needs_no_escaping(text: Seq<char>)
    requires
        is_name(text),
    ensures
        forall|i: int|
            0 <= i < text.len() ==> !text::is_space(#[trigger] text[i]) && text[i] != '/' && text[i]
                != '\\' && text[i] != '\'' && text[i] != '"' && text[i] != '$' && text[i] != '`'
                && text[i] != '*' && text[i] != '?' && text[i] != ';' && text[i] != '&' && text[i]
                != '|' && text[i] != '\0',
        text != seq!['.'],
        text != seq!['.', '.'],
{
}

/// Whether a text is a name.
pub fn check_name(candidate: &str) -> (valid: bool)
    ensures
        valid == is_name(candidate@),
{
    let list: Vec<char> = text::characters(candidate);
    if list.len() == 0 || list.len() > LONGEST {
        return false;
    }
    let mut i: usize = 0;
    while i < list.len()
        invariant
            i <= list.len(),
            list@ == candidate@,
            forall|j: int| 0 <= j < i ==> is_name_character(#[trigger] candidate@[j]),
        decreases list.len() - i,
    {
        let c: char = list[i];
        let permitted: bool = ('A' <= c && c <= 'Z') || ('a' <= c && c <= 'z') || ('0' <= c && c
            <= '9') || c == '.' || c == '_' || c == '-';
        if !permitted {
            assert(!is_name_character(candidate@[i as int]));
            return false;
        }
        i = i + 1;
    }
    if list.len() == 1 && list[0] == '.' {
        assert(candidate@ =~= seq!['.']);
        return false;
    }
    if list.len() == 2 && list[0] == '.' && list[1] == '.' {
        assert(candidate@ =~= seq!['.', '.']);
        return false;
    }
    true
}

/// Names a box.
#[derive(Debug, PartialEq, Eq, PartialOrd, Ord, Hash)]
pub struct BoxId {
    text: String,
}

impl View for BoxId {
    type V = Seq<char>;

    closed spec fn view(&self) -> Seq<char> {
        self.text@
    }
}

impl BoxId {
    #[verifier::type_invariant]
    spec fn valid(&self) -> bool {
        is_name(self.text@)
    }

    /// Accept `candidate` as the name of a box.
    pub fn new(candidate: &str) -> (made: Result<BoxId, Error>)
        ensures
            match made {
                Ok(made) => is_name(candidate@) && made@ == candidate@,
                Err(error) => !is_name(candidate@) && error@ == crate::error::invalid_name(
                    "box id"@,
                    candidate@,
                ),
            },
    {
        if check_name(candidate) {
            Ok(BoxId { text: candidate.to_owned() })
        } else {
            Err(Error::InvalidIdentifier { kind: "box id", value: candidate.to_owned() })
        }
    }

    /// The name itself.
    pub fn as_str(&self) -> (name: &str)
        ensures
            name@ == self@,
            is_name(self@),
    {
        proof {
            use_type_invariant(self);
        }
        self.text.as_str()
    }

    /// The name itself, as a string of its own.
    pub fn into_string(self) -> (name: String)
        ensures
            name@ == self@,
            is_name(self@),
    {
        proof {
            use_type_invariant(&self);
        }
        self.text
    }
}

impl Clone for BoxId {
    fn clone(&self) -> (copy: Self)
        ensures
            copy == *self,
    {
        proof {
            use_type_invariant(self);
        }
        BoxId { text: self.text.clone() }
    }
}

/// Names a snapshot.
#[derive(Debug, PartialEq, Eq, PartialOrd, Ord, Hash)]
pub struct SnapshotId {
    text: String,
}

impl View for SnapshotId {
    type V = Seq<char>;

    closed spec fn view(&self) -> Seq<char> {
        self.text@
    }
}

impl SnapshotId {
    #[verifier::type_invariant]
    spec fn valid(&self) -> bool {
        is_name(self.text@)
    }

    /// Accept `candidate` as the name of a snapshot.
    pub fn new(candidate: &str) -> (made: Result<SnapshotId, Error>)
        ensures
            match made {
                Ok(made) => is_name(candidate@) && made@ == candidate@,
                Err(error) => !is_name(candidate@) && error@ == crate::error::invalid_name(
                    "snapshot id"@,
                    candidate@,
                ),
            },
    {
        if check_name(candidate) {
            Ok(SnapshotId { text: candidate.to_owned() })
        } else {
            Err(Error::InvalidIdentifier { kind: "snapshot id", value: candidate.to_owned() })
        }
    }

    /// The name itself.
    pub fn as_str(&self) -> (name: &str)
        ensures
            name@ == self@,
            is_name(self@),
    {
        proof {
            use_type_invariant(self);
        }
        self.text.as_str()
    }

    /// The name itself, as a string of its own.
    pub fn into_string(self) -> (name: String)
        ensures
            name@ == self@,
            is_name(self@),
    {
        proof {
            use_type_invariant(&self);
        }
        self.text
    }
}

impl Clone for SnapshotId {
    fn clone(&self) -> (copy: Self)
        ensures
            copy == *self,
    {
        proof {
            use_type_invariant(self);
        }
        SnapshotId { text: self.text.clone() }
    }
}

/// Names a host: which machine.
#[derive(Debug, PartialEq, Eq, PartialOrd, Ord, Hash)]
pub struct HostRef {
    text: String,
}

impl View for HostRef {
    type V = Seq<char>;

    closed spec fn view(&self) -> Seq<char> {
        self.text@
    }
}

impl HostRef {
    #[verifier::type_invariant]
    spec fn valid(&self) -> bool {
        is_name(self.text@)
    }

    /// Accept `candidate` as the name of a host.
    pub fn new(candidate: &str) -> (made: Result<HostRef, Error>)
        ensures
            match made {
                Ok(made) => is_name(candidate@) && made@ == candidate@,
                Err(error) => !is_name(candidate@) && error@ == crate::error::invalid_name(
                    "host name"@,
                    candidate@,
                ),
            },
    {
        if check_name(candidate) {
            Ok(HostRef { text: candidate.to_owned() })
        } else {
            Err(Error::InvalidIdentifier { kind: "host name", value: candidate.to_owned() })
        }
    }

    /// The name itself.
    pub fn as_str(&self) -> (name: &str)
        ensures
            name@ == self@,
            is_name(self@),
    {
        proof {
            use_type_invariant(self);
        }
        self.text.as_str()
    }

    /// The name itself, as a string of its own.
    pub fn into_string(self) -> (name: String)
        ensures
            name@ == self@,
            is_name(self@),
    {
        proof {
            use_type_invariant(&self);
        }
        self.text
    }
}

impl Clone for HostRef {
    fn clone(&self) -> (copy: Self)
        ensures
            copy == *self,
    {
        proof {
            use_type_invariant(self);
        }
        HostRef { text: self.text.clone() }
    }
}

/// Names a sandbox: what confines.
#[derive(Debug, PartialEq, Eq, PartialOrd, Ord, Hash)]
pub struct SandboxRef {
    text: String,
}

impl View for SandboxRef {
    type V = Seq<char>;

    closed spec fn view(&self) -> Seq<char> {
        self.text@
    }
}

impl SandboxRef {
    #[verifier::type_invariant]
    spec fn valid(&self) -> bool {
        is_name(self.text@)
    }

    /// Accept `candidate` as the name of a sandbox.
    pub fn new(candidate: &str) -> (made: Result<SandboxRef, Error>)
        ensures
            match made {
                Ok(made) => is_name(candidate@) && made@ == candidate@,
                Err(error) => !is_name(candidate@) && error@ == crate::error::invalid_name(
                    "sandbox name"@,
                    candidate@,
                ),
            },
    {
        if check_name(candidate) {
            Ok(SandboxRef { text: candidate.to_owned() })
        } else {
            Err(Error::InvalidIdentifier { kind: "sandbox name", value: candidate.to_owned() })
        }
    }

    /// The name itself.
    pub fn as_str(&self) -> (name: &str)
        ensures
            name@ == self@,
            is_name(self@),
    {
        proof {
            use_type_invariant(self);
        }
        self.text.as_str()
    }

    /// The name itself, as a string of its own.
    pub fn into_string(self) -> (name: String)
        ensures
            name@ == self@,
            is_name(self@),
    {
        proof {
            use_type_invariant(&self);
        }
        self.text
    }
}

impl Clone for SandboxRef {
    fn clone(&self) -> (copy: Self)
        ensures
            copy == *self,
    {
        proof {
            use_type_invariant(self);
        }
        SandboxRef { text: self.text.clone() }
    }
}

/// The names are the texts of one to sixty-four letters, digits, dots,
/// underscores and dashes, but for the two that every directory has.
pub proof fn the_names_are_known(text: Seq<char>)
    ensures
        is_name(text) <==> {
            &&& 1 <= text.len() <= 64
            &&& text != seq!['.']
            &&& text != seq!['.', '.']
            &&& forall|i: int|
                0 <= i < text.len() ==> ('a' <= #[trigger] text[i] <= 'z' || 'A' <= text[i] <= 'Z'
                    || '0' <= text[i] <= '9' || text[i] == '.' || text[i] == '_' || text[i] == '-')
        },
{
    if !is_name(text) && 1 <= text.len() <= 64 && text != seq!['.'] && text != seq!['.', '.'] {
        let i = choose|i: int| 0 <= i < text.len() && !is_name_character(#[trigger] text[i]);
        assert(!is_name_character(text[i]));
    }
}

/// Two names put together are a name, unless that is too long.
pub proof fn names_compose(left: Seq<char>, right: Seq<char>)
    requires
        is_name(left),
        is_name(right),
    ensures
        left.len() + right.len() <= 64 ==> is_name(left + right),
        left.len() + right.len() > 64 ==> !is_name(left + right),
{
    let both = left + right;
    assert forall|i: int| 0 <= i < both.len() implies is_name_character(#[trigger] both[i]) by {
        if i >= left.len() {
            assert(is_name_character(right[i - left.len()]));
        }
    }
    if both == seq!['.', '.'] {
        assert(both.len() == 2);
        assert(both[0] == left[0]);
        assert(left =~= seq!['.']);
    }
}

} // verus!
