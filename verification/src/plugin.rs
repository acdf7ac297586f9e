use std::any::TypeId;
use vstd::prelude::*;

use crate::app::{App, AppView};

verus! {

#[verifier::external_type_specification]
#[verifier::external_body]
pub struct ExTypeId(TypeId);

/// `TypeId::of` gives the identifier of a type; nothing is stated of it.
pub assume_specification<T: ?Sized + 'static>[TypeId::of::<T>]() -> TypeId;

/// `TypeId`'s `==`: two identifiers compare equal exactly when they are the
/// same identifier, that is, when they identify the same type.
#[verifier::external_body]
pub(crate) fn same_type_id(a: &TypeId, b: &TypeId) -> (r: bool)
    ensures
        r == (*a == *b),
{
    a == b
}

/// A collection of application logic and configuration steps that can be
/// added to an [`App`] to customize its startup and runtime behavior.
pub trait Plugin<R>: 'static {
    /// Whether [`Plugin::build`] accepts every application: true unless an
    /// implementation says otherwise.
    open spec fn ready(&self) -> bool {
        true
    }

    /// What [`Plugin::build`] makes of an application: `after` is what it
    /// leaves of the application `before` that it was given. Unless an
    /// implementation says more, nothing is said.
    open spec fn builds(&self, before: AppView<R>, after: AppView<R>) -> bool {
        true
    }

    /// Configure the [`App`] to which this plugin was added.
    fn build(&self, app: &mut App<R>)
        requires
            self.ready(),
        ensures
            self.builds(old(app)@, final(app)@),
    ;

    /// Whether an [`App`] may include no more than one plugin with this
    /// plugin's identifier. By default a plugin is unique.
    fn is_unique(&self) -> (r: bool)
        default_ensures
            r,
    {
        true
    }

    /// The identifier by which plugins are told apart: by default the
    /// `TypeId` of the plugin type itself.
    fn id(&self) -> TypeId {
        TypeId::of::<Self>()
    }
}

/// Any closure over the application is a plugin whose [`Plugin::build`]
/// calls it.
impl<R, T: Fn(&mut App<R>) + 'static> Plugin<R> for T {
    open spec fn ready(&self) -> bool {
        forall|a: &mut App<R>| call_requires(*self, (a,))
    }

    /// The closure is called on the application: its own postcondition
    /// relates the application it was given to the one it leaves.
    fn build(&self, app: &mut App<R>)
        ensures
            exists|a: &mut App<R>|
                *a == *old(app) && *final(a) == *final(app) && call_ensures(*self, (a,), ()),
    {
        self(app)
    }
}

} // verus!
