//! Reusable bundles of native functions.
//!
//! A package is a fixed list of functions, each with its key. It can be merged
//! into any number of function tables and is not used up by that. Merging
//! registers the list first to last, so a package replaces what a table held
//! under its keys and leaves every other entry alone.
use crate::module::{
    install, keys_of, lemma_install_frame, lemma_install_twice, registrations, FnKeyView, Module,
    Registration,
};
use crate::native::NativeFn;
use vstd::prelude::*;

pub mod string_basic;

verus! {

/// A named bundle of native functions.
pub trait Package {
    /// The keys under which the package registers, in order. They are the
    /// same every time. Of a package that does not say, nothing is known but
    /// that.
    open spec fn keys(&self) -> Seq<FnKeyView> {
        arbitrary()
    }

    /// What the functions that the package registers do, each at its place
    /// in the list. A package that does not say promises nothing.
    open spec fn describes(&self, members: Seq<(FnKeyView, NativeFn)>) -> bool {
        true
    }

    /// The name that identifies the package: the same every time. Of a
    /// package that does not say, nothing is known but that.
    open spec fn spec_name(&self) -> Seq<char> {
        arbitrary()
    }

    /// The one line that says what the package holds: the same every time.
    open spec fn spec_description(&self) -> Seq<char> {
        arbitrary()
    }

    /// The name that identifies the package.
    fn name(&self) -> (name: String)
        ensures
            name@ == self.spec_name(),
    ;

    /// One line on what the package holds.
    fn description(&self) -> (line: String)
        ensures
            line@ == self.spec_description(),
    ;

    /// A fresh list of the package's functions.
    fn members(&self) -> (items: Vec<Registration>)
        ensures
            keys_of(registrations(items@)) == self.keys(),
            self.describes(registrations(items@)),
    ;

    /// Merges the package into `lib`: registers its functions, first to last.
    fn init(&self, lib: &mut Module)
        ensures
            exists|members: Seq<(FnKeyView, NativeFn)>|
                keys_of(members) == self.keys() && self.describes(members) && final(lib)@
                    == #[trigger] install(old(lib)@, members),
    ;
}

/// Merging a package twice into a table leaves the table as merging it once
/// does: the table after the second merge is the table that the second merge
/// alone makes of the table before the first. The second merge adds no key
/// and touches no entry but the package's own.
pub proof fn lemma_init_twice<P: Package>(
    package: P,
    table: Map<FnKeyView, NativeFn>,
    first: Seq<(FnKeyView, NativeFn)>,
    second: Seq<(FnKeyView, NativeFn)>,
)
    requires
        keys_of(first) == package.keys(),
        keys_of(second) == package.keys(),
    ensures
        install(install(table, first), second) == install(table, second),
        install(install(table, first), second).dom() == install(table, first).dom(),
        forall|k: FnKeyView|
            !package.keys().contains(k) && install(table, first).contains_key(k) ==> install(
                install(table, first),
                second,
            )[k] == install(table, first)[k],
{
    lemma_install_twice(table, first, second);
    lemma_install_frame(table, first);
    lemma_install_frame(table, second);
    let once = install(table, first);
    let twice = install(table, second);
    assert forall|k: FnKeyView| once.dom().contains(k) == twice.dom().contains(k) by {
        if package.keys().contains(k) {
            let i = choose|i: int| 0 <= i < package.keys().len() && package.keys()[i] == k;
            assert(first[i].0 == keys_of(first)[i]);
            assert(second[i].0 == keys_of(second)[i]);
        } else {
            assert(!keys_of(first).to_set().contains(k));
            assert(!keys_of(second).to_set().contains(k));
        }
    }
    assert(once.dom() =~= twice.dom());
    assert forall|k: FnKeyView| !package.keys().contains(k) && once.contains_key(k) implies twice[k]
        == once[k] by {
        assert(!keys_of(first).to_set().contains(k));
        assert(!keys_of(second).to_set().contains(k));
    }
}

} // verus!
