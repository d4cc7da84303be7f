//! Absolute filesystem paths, modelled as lists of component names.

use vstd::prelude::*;

verus! {

/// The sequence of component names, as character sequences, that a list of
/// component strings denotes.
pub open spec fn names_seq(components: Seq<String>) -> Seq<Seq<char>> {
    Seq::new(components.len(), |i: int| components[i]@)
}

/// An absolute filesystem path: the list of its component names from the
/// filesystem root downward. The root itself is the empty list, so a path has
/// a parent exactly when it has at least one component.
#[derive(Debug, PartialEq, Eq)]
pub struct AbsPath {
    components: Vec<String>,
}

impl View for AbsPath {
    type V = Seq<Seq<char>>;

    closed spec fn view(&self) -> Seq<Seq<char>> {
        names_seq(self.components@)
    }
}

impl AbsPath {
    /// The filesystem root: the path with no components.
    pub fn root() -> (r: AbsPath)
        ensures
            r@ == Seq::<Seq<char>>::empty(),
    {
        let r = AbsPath { components: Vec::new() };
        proof {
            assert(r@ =~= Seq::<Seq<char>>::empty());
        }
        r
    }

    /// The path with the given components, from the filesystem root downward.
    pub fn from_components(components: Vec<String>) -> (r: AbsPath)
        ensures
            r@ == names_seq(components@),
    {
        AbsPath { components }
    }

    /// How many components the path has; the filesystem root has zero.
    pub fn depth(&self) -> (n: usize)
        ensures
            n == self@.len(),
    {
        self.components.len()
    }

    /// Whether the path has a parent, that is, whether it is not the root.
    pub fn has_parent(&self) -> (r: bool)
        ensures
            r == (self@.len() > 0),
    {
        self.components.len() > 0
    }

    /// Steps to the parent directory by dropping the last component.
    pub fn pop(&mut self)
        requires
            old(self)@.len() > 0,
        ensures
            final(self)@ == old(self)@.drop_last(),
    {
        self.components.pop();
        proof {
            assert(self@ =~= old(self)@.drop_last());
        }
    }

    /// Appends one component, stepping to a direct child of the path.
    pub fn push(&mut self, name: String)
        ensures
            final(self)@ == old(self)@.push(name@),
    {
        self.components.push(name);
        proof {
            assert(self@ =~= old(self)@.push(name@));
        }
    }

    /// The component names of the path, from the filesystem root downward.
    pub fn components(&self) -> (r: &Vec<String>)
        ensures
            names_seq(r@) == self@,
    {
        &self.components
    }
}

impl Clone for AbsPath {
    /// The copy denotes the same path.
    fn clone(&self) -> (r: Self)
        ensures
            r@ == self@,
    {
        let mut components: Vec<String> = Vec::new();
        let mut i: usize = 0;
        while i < self.components.len()
            invariant
                i <= self.components.len(),
                components@.len() == i,
                forall|j: int| 0 <= j < i ==> components@[j]@ == #[trigger] self@[j],
            decreases self.components.len() - i,
        {
            let c = self.components[i].clone();
            proof {
                assert(c@ == self@[i as int]);
            }
            components.push(c);
            i = i + 1;
        }
        proof {
            assert(names_seq(components@) =~= self@);
        }
        AbsPath { components }
    }
}

} // verus!
