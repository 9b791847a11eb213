//! What tinybox offers on a bus.

use vstd::prelude::*;
use vstd::string::*;

use crate::capability::{IsolationLevel, SandboxCapabilities};
use crate::text;

verus! {

/// The version of this module.
pub const VERSION: &'static str = "0.1.0";

/// The interface that the module implements, and the name it claims.
pub const INTERFACE: &'static str = "ai.tinyhumans.tinybox.Box";

/// A name of each sandbox, and what it declares.
pub open spec fn registry(sandboxes: Seq<(&'static str, SandboxCapabilities)>) -> Seq<
    (Seq<char>, SandboxCapabilities),
> {
    Seq::new(sandboxes.len(), |i: int| (sandboxes[i].0@, sandboxes[i].1))
}

/// The names of all sandboxes, in their order.
pub open spec fn all_names(sandboxes: Seq<(Seq<char>, SandboxCapabilities)>) -> Seq<Seq<char>> {
    Seq::new(sandboxes.len(), |i: int| sandboxes[i].0)
}

/// The names of the sandboxes that are a place for untrusted code, in their
/// order.
pub open spec fn strong_names(sandboxes: Seq<(Seq<char>, SandboxCapabilities)>) -> Seq<Seq<char>>
    decreases sandboxes.len(),
{
    if sandboxes.len() == 0 {
        Seq::empty()
    } else if sandboxes.last().1.contains_untrusted_code() {
        strong_names(sandboxes.drop_last()).push(sandboxes.last().0)
    } else {
        strong_names(sandboxes.drop_last())
    }
}

/// A list of names, in words: an empty one is said to be so.
pub open spec fn names_text(names: Seq<Seq<char>>) -> Seq<char> {
    if names.len() == 0 {
        "none"@
    } else {
        text::joined(names, ", "@)
    }
}

/// What the module says of itself.
pub open spec fn description(sandboxes: Seq<(Seq<char>, SandboxCapabilities)>) -> Seq<char> {
    "tinybox "@ + VERSION@ + "; isolation floor for untrusted code: "@ + IsolationLevel::Kernel.text()
        + "; sandboxes: "@ + names_text(all_names(sandboxes)) + "; untrusted-capable: "@
        + names_text(strong_names(sandboxes))
}

/// The sandboxes that are compiled into the module: none.
pub fn registered_sandboxes() -> (sandboxes: Vec<(&'static str, SandboxCapabilities)>)
    ensures
        sandboxes@.len() == 0,
{
    Vec::new()
}

/// Render a list of names.
fn render_names(names: &Vec<String>) -> (rendered: String)
    ensures
        rendered@ == names_text(text::texts(names@)),
{
    if names.len() == 0 {
        "none".to_owned()
    } else {
        text::join(names, ", ")
    }
}

/// Say what the module is, which sandboxes it has, and which of them are a
/// place for untrusted code.
pub fn describe(sandboxes: &[(&'static str, SandboxCapabilities)]) -> (said: String)
    ensures
        said@ == description(registry(sandboxes@)),
{
    let ghost all = registry(sandboxes@);
    let mut present: Vec<String> = Vec::new();
    let mut strong: Vec<String> = Vec::new();
    let mut i: usize = 0;
    assert(text::texts(present@) =~= all_names(all.take(0)));
    assert(text::texts(strong@) =~= strong_names(all.take(0)));
    while i < sandboxes.len()
        invariant
            i <= sandboxes@.len(),
            all == registry(sandboxes@),
            text::texts(present@) == all_names(all.take(i as int)),
            text::texts(strong@) == strong_names(all.take(i as int)),
        decreases sandboxes@.len() - i,
    {
        let name: &'static str = sandboxes[i].0;
        let capabilities: SandboxCapabilities = sandboxes[i].1;
        proof {
            assert(all.take(i + 1).drop_last() =~= all.take(i as int));
            assert(all.take(i + 1).last() == all[i as int]);
            assert(all_names(all.take(i + 1)) =~= all_names(all.take(i as int)).push(name@));
        }
        text::add_to(&mut present, name);
        if capabilities.is_suitable_for_untrusted_code() {
            text::add_to(&mut strong, name);
        }
        i = i + 1;
    }
    assert(all.take(i as int) =~= all);
    let floor: String = IsolationLevel::Kernel.to_string();
    let listed: String = render_names(&present);
    let recommended: String = render_names(&strong);
    let mut said: String = text::concat5(
        "tinybox ",
        VERSION,
        "; isolation floor for untrusted code: ",
        floor.as_str(),
        "; sandboxes: ",
    );
    said.append(listed.as_str());
    said.append("; untrusted-capable: ");
    said.append(recommended.as_str());
    said
}

/// The methods that the module declares.
pub open spec fn declared_members() -> Seq<Seq<char>> {
    seq!["Describe"@]
}

/// The service behind the interface.
#[derive(Debug, Clone, Copy, PartialEq, Eq)]
pub struct BoxService;

impl BoxService {
    /// The methods that the service declares.
    pub fn members(&self) -> (members: Vec<String>)
        ensures
            text::texts(members@) == declared_members(),
    {
        let mut members: Vec<String> = Vec::new();
        text::add_to(&mut members, "Describe");
        assert(text::texts(members@) =~= declared_members());
        members
    }

    /// Call a method. One that is not declared is refused, and every one that
    /// is declared answers.
    pub fn call(&self, method: &str) -> (answer: Option<String>)
        ensures
            answer is Some == declared_members().contains(method@),
            answer matches Some(answer) ==> answer@ == description(Seq::empty()),
    {
        if text::same(method, "Describe") {
            assert(declared_members()[0] == method@);
            let registered: Vec<(&'static str, SandboxCapabilities)> = registered_sandboxes();
            assert(registry(registered@) =~= Seq::empty());
            Some(describe(registered.as_slice()))
        } else {
            assert(!declared_members().contains(method@));
            None
        }
    }
}

/// Only a sandbox at or above the isolation floor is called a place for
/// untrusted code, and every such one is.
pub proof fn only_strong_sandboxes_are_recommended(
    sandboxes: Seq<(Seq<char>, SandboxCapabilities)>,
    name: Seq<char>,
)
    ensures
        strong_names(sandboxes).contains(name) <==> exists|i: int|
            0 <= i < sandboxes.len() && #[trigger] sandboxes[i].0 == name
                && sandboxes[i].1.isolation.strength() >= IsolationLevel::Kernel.strength(),
    decreases sandboxes.len(),
{
    if sandboxes.len() > 0 {
        let shorter = sandboxes.drop_last();
        let last = sandboxes.len() - 1;
        only_strong_sandboxes_are_recommended(shorter, name);
        let names = strong_names(sandboxes);
        if names.contains(name) {
            let at = choose|i: int| 0 <= i < names.len() && names[i] == name;
            if at < strong_names(shorter).len() {
                assert(strong_names(shorter)[at] == name);
                assert(strong_names(shorter).contains(name));
                let i = choose|i: int|
                    0 <= i < shorter.len() && #[trigger] shorter[i].0 == name
                        && shorter[i].1.isolation.strength() >= IsolationLevel::Kernel.strength();
                assert(sandboxes[i].0 == name);
            } else {
                assert(sandboxes[last].0 == name);
            }
        }
        if exists|i: int|
            0 <= i < sandboxes.len() && #[trigger] sandboxes[i].0 == name
                && sandboxes[i].1.isolation.strength() >= IsolationLevel::Kernel.strength() {
            let i = choose|i: int|
                0 <= i < sandboxes.len() && #[trigger] sandboxes[i].0 == name
                    && sandboxes[i].1.isolation.strength() >= IsolationLevel::Kernel.strength();
            if i < last {
                assert(shorter[i].0 == name);
                assert(strong_names(shorter).contains(name));
                let at = choose|at: int|
                    0 <= at < strong_names(shorter).len() && strong_names(shorter)[at] == name;
                assert(names[at] == name);
            } else {
                assert(names.last() == name);
            }
        }
    }
}

/// The names of strong sandboxes in two lists are those of the one and then
/// those of the other.
proof fn strong_names_of_both(
    left: Seq<(Seq<char>, SandboxCapabilities)>,
    right: Seq<(Seq<char>, SandboxCapabilities)>,
)
    ensures
        strong_names(left + right) == strong_names(left) + strong_names(right),
    decreases right.len(),
{
    if right.len() == 0 {
        assert(left + right =~= left);
        assert(strong_names(left) + strong_names(right) =~= strong_names(left));
    } else {
        assert((left + right).drop_last() =~= left + right.drop_last());
        assert((left + right).last() == right.last());
        strong_names_of_both(left, right.drop_last());
        assert(strong_names(left + right) =~= strong_names(left) + strong_names(right));
    }
}

/// The names that are recommended keep the order of the sandboxes, each once for
/// every sandbox that is strong enough; and every sandbox is listed.
pub proof fn names_keep_their_order(
    sandbox: (Seq<char>, SandboxCapabilities),
    left: Seq<(Seq<char>, SandboxCapabilities)>,
    right: Seq<(Seq<char>, SandboxCapabilities)>,
)
    ensures
        strong_names(Seq::empty()).len() == 0,
        strong_names(seq![sandbox]) == if sandbox.1.isolation is Kernel || sandbox.1.isolation
            is Hardware {
            seq![sandbox.0]
        } else {
            Seq::empty()
        },
        strong_names(left + right) == strong_names(left) + strong_names(right),
        all_names(left).len() == left.len(),
        forall|i: int| 0 <= i < left.len() ==> #[trigger] all_names(left)[i] == left[i].0,
{
    let one = seq![sandbox];
    assert(one.drop_last() =~= Seq::empty());
    assert(strong_names(one.drop_last()) =~= Seq::empty());
    assert(Seq::empty().push(sandbox.0) =~= seq![sandbox.0]);
    strong_names_of_both(left, right);
}

/// What the module says of itself, part by part. A list without names is said to
/// be none.
pub proof fn the_description_is_known(
    sandboxes: Seq<(Seq<char>, SandboxCapabilities)>,
    names: Seq<Seq<char>>,
)
    ensures
        description(sandboxes) == "tinybox "@ + "0.1.0"@
            + "; isolation floor for untrusted code: "@ + "kernel"@ + "; sandboxes: "@ + names_text(
            all_names(sandboxes),
        ) + "; untrusted-capable: "@ + names_text(strong_names(sandboxes)),
        names.len() == 0 ==> names_text(names) == "none"@,
        names.len() > 0 ==> names_text(names) == text::joined(names, ", "@),
{
}

} // verus!
