//! Which target names a collector listens to.

use vstd::prelude::*;

verus! {

/// The targets that a collector accepts: all of them, or those whose names
/// are listed. The list stands for a set: order and repetition mean nothing,
/// and an empty list accepts no target.
#[derive(Debug)]
pub enum AllowedTargets {
    All,
    Selected(Vec<String>),
}

/// A target scope as a mathematical value.
pub enum TargetScope {
    All,
    Selected(Set<Seq<char>>),
}

/// The set of the names in a list.
pub open spec fn name_set(names: Seq<String>) -> Set<Seq<char>> {
    Set::new(|name: Seq<char>| exists|i: int| 0 <= i < names.len() && #[trigger] names[i]@ == name)
}

impl TargetScope {
    /// Whether the scope lets a target of this name through.
    pub open spec fn permits(self, target: Seq<char>) -> bool {
        match self {
            TargetScope::All => true,
            TargetScope::Selected(names) => names.contains(target),
        }
    }
}

impl View for AllowedTargets {
    type V = TargetScope;

    open spec fn view(&self) -> TargetScope {
        match self {
            AllowedTargets::All => TargetScope::All,
            AllowedTargets::Selected(names) => TargetScope::Selected(name_set(names@)),
        }
    }
}

/// Tells whether `target` is one of `names`.
pub fn is_listed(names: &Vec<String>, target: &String) -> (found: bool)
    ensures
        found == name_set(names@).contains(target@),
{
    let mut i: usize = 0;
    while i < names.len()
        invariant
            i <= names.len(),
            forall|j: int| 0 <= j < i ==> names[j]@ != target@,
        decreases names.len() - i,
    {
        if names[i] == *target {
            return true;
        }
        i += 1;
    }
    false
}

/// Copies a list of names, in its order.
fn copy_names(names: &Vec<String>) -> (copy: Vec<String>)
    ensures
        copy@ == names@,
{
    let mut copy: Vec<String> = Vec::new();
    let mut i: usize = 0;
    while i < names.len()
        invariant
            i <= names.len(),
            copy.len() == i,
            forall|j: int| 0 <= j < i ==> copy[j] == names[j],
        decreases names.len() - i,
    {
        copy.push(names[i].clone());
        i += 1;
    }
    assert(copy@ =~= names@);
    copy
}

impl Clone for AllowedTargets {
    fn clone(&self) -> (copy: Self)
        ensures
            copy@ == self@,
    {
        match self {
            AllowedTargets::All => AllowedTargets::All,
            AllowedTargets::Selected(names) => AllowedTargets::Selected(copy_names(names)),
        }
    }
}

impl AllowedTargets {
    /// Tells whether a target of this name is let through.
    pub fn permits(&self, target: &String) -> (r: bool)
        ensures
            r == self@.permits(target@),
    {
        match self {
            AllowedTargets::All => true,
            AllowedTargets::Selected(names) => is_listed(names, target),
        }
    }
}

} // verus!
