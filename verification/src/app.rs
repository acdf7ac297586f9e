use std::any::TypeId;
use vstd::prelude::*;

use crate::plugin::{same_type_id, Plugin};

verus! {

/// A status code that cannot be zero: the code of a failed application.
///
/// POSIX reserves status 0 for success, and only the lowest 8 bits of a
/// status reach the calling shell, so an error is described by a non-zero
/// byte.
#[derive(Clone, Copy, Debug, PartialEq, Eq, Structural)]
pub struct ErrorStatus {
    code: u8,
}

impl ErrorStatus {
    #[verifier::type_invariant]
    spec fn nonzero(self) -> bool {
        self.code != 0
    }

    /// The status code.
    pub closed spec fn value(self) -> u8 {
        self.code
    }

    /// Makes a status from `code`, or gives `None` where `code` is zero.
    pub fn new(code: u8) -> (r: Option<ErrorStatus>)
        ensures
            r is Some <==> code != 0,
            r matches Some(s) ==> s.value() == code,
    {
        if code == 0 {
            None
        } else {
            Some(ErrorStatus { code })
        }
    }

    /// The status code, which is never zero.
    pub fn get(&self) -> (r: u8)
        ensures
            r == self.value(),
            r != 0,
    {
        proof {
            use_type_invariant(self);
        }
        self.code
    }
}

/// The status code to use when exiting the application: the value returned by
/// the application runner, and passed back to the caller of [`App::run`].
#[derive(Clone, Copy, Debug, PartialEq, Eq, Structural)]
pub enum AppExit {
    /// The application exited successfully (status 0 on POSIX systems).
    Success,
    /// The application exited with an error, whose status code is non-zero.
    Error(ErrorStatus),
}

/// The runner of an application: the closure that processes its main loop.
///
/// `Once` is the default runner [`run_once`], which features no event loop;
/// `Custom` holds a runner set with [`App::set_runner`].
pub enum Runner<R> {
    Once,
    Custom(R),
}

/// A runner set with [`App::set_runner`]: it is consumed by [`App::run`] and
/// given the application, whose own runner has been reset to [`run_once`].
pub trait AppRunner: Sized {
    /// What the runner does: given the application `handed`, it leaves the
    /// application `after` and exits with `exit`. Unless an implementation
    /// says more, nothing is said.
    open spec fn runs(self, handed: AppView<Self>, after: AppView<Self>, exit: AppExit) -> bool {
        true
    }

    fn run_app(self, app: &mut App<Self>) -> (r: AppExit)
        requires
            old(app)@.runner is Once,
        ensures
            self.runs(old(app)@, final(app)@, r),
    ;
}

/// What an application is, as the contracts see it.
pub struct AppView<R> {
    /// The application's name.
    pub name: Seq<char>,
    /// The runner that [`App::run`] will call.
    pub runner: Runner<R>,
    /// The identifiers of the plugins registered so far.
    pub plugins: Set<TypeId>,
}

/// The application object: its name, its runner (the main loop of the
/// program) and the set of plugins registered with it.
pub struct App<R> {
    name: String,
    runner: Runner<R>,
    plugins: Vec<TypeId>,
}

impl<R> View for App<R> {
    type V = AppView<R>;

    closed spec fn view(&self) -> AppView<R> {
        AppView { name: self.name@, runner: self.runner, plugins: self.plugins@.to_set() }
    }
}

/// The default application runner, which features no event loop: it returns
/// [`AppExit::Success`] and leaves the application as it is.
pub fn run_once<R>(app: &mut App<R>) -> (r: AppExit)
    ensures
        r == AppExit::Success,
        *final(app) == *old(app),
{
    let _ = app;
    AppExit::Success
}

impl<R> App<R> {
    /// No plugin identifier is registered twice.
    #[verifier::type_invariant]
    spec fn registry_wf(self) -> bool {
        self.plugins@.no_duplicates()
    }

    /// Creates an application with the given name, the runner [`run_once`]
    /// and no plugins.
    pub fn new(name: String) -> (app: Self)
        ensures
            app@.name == name@,
            app@.runner is Once,
            app@.plugins == Set::<TypeId>::empty(),
    {
        let app = App { name, runner: Runner::Once, plugins: Vec::new() };
        assert(app.plugins@.to_set() =~= Set::<TypeId>::empty());
        app
    }

    /// The application's name, as given to [`App::new`] or [`App::set_name`].
    pub fn name(&self) -> (r: &str)
        ensures
            r@ == self@.name,
    {
        self.name.as_str()
    }

    /// Changes the name of the application; the runner and the plugins stay.
    pub fn set_name(&mut self, name: String) -> (r: &mut Self)
        ensures
            r@.name == name@,
            r@.runner == old(self)@.runner,
            r@.plugins == old(self)@.plugins,
            *final(self) == *final(r),
    {
        proof {
            use_type_invariant(&*self);
        }
        self.name = name;
        self
    }

    /// Changes the runner; the name and the plugins stay.
    pub fn set_runner(&mut self, runner: R) -> (r: &mut Self)
        ensures
            r@.runner == Runner::Custom(runner),
            r@.name == old(self)@.name,
            r@.plugins == old(self)@.plugins,
            *final(self) == *final(r),
    {
        proof {
            use_type_invariant(&*self);
        }
        self.runner = Runner::Custom(runner);
        self
    }
}

impl<R> App<R> {
    /// Whether a plugin with identifier `id` has been registered.
    pub fn has_plugin(&self, id: &TypeId) -> (r: bool)
        ensures
            r == self@.plugins.contains(*id),
    {
        let n = self.plugins.len();
        let mut i: usize = 0;
        while i < n
            invariant
                n == self.plugins@.len(),
                i <= n,
                forall|j: int| 0 <= j < i ==> self.plugins@[j] != *id,
            decreases n - i,
        {
            if same_type_id(&self.plugins[i], id) {
                assert(self.plugins@.to_set().contains(*id));
                return true;
            }
            i = i + 1;
        }
        assert(!self.plugins@.to_set().contains(*id));
        false
    }

    /// Registers the identifier of a plugin that reports `unique` as its
    /// [`Plugin::is_unique`]. A unique plugin whose identifier is already
    /// registered is refused, and the application stays as it was; otherwise
    /// the identifier joins the registry (where it may already be) and the
    /// name and the runner stay.
    pub fn register_plugin(&mut self, id: TypeId, unique: bool) -> (r: bool)
        ensures
            r == accepts_plugin(old(self)@.plugins, id, unique),
            final(self)@.plugins == registry_after(old(self)@.plugins, id, unique),
            final(self)@.name == old(self)@.name,
            final(self)@.runner == old(self)@.runner,
            !r ==> *final(self) == *old(self),
    {
        proof {
            use_type_invariant(&*self);
        }
        let present = self.has_plugin(&id);
        if unique && present {
            return false;
        }
        if !present {
            let mut plugins: Vec<TypeId> = Vec::new();
            std::mem::swap(&mut plugins, &mut self.plugins);
            plugins.push(id);
            self.plugins = plugins;
            proof {
                let before = old(self).plugins@;
                let after = self.plugins@;
                assert(after == before.push(id));
                assert forall|x: TypeId| after.contains(x) <==> before.contains(x) || x == id by {
                    if x == id {
                        assert(after[before.len() as int] == id);
                    }
                    if before.contains(x) {
                        let k = choose|k: int| 0 <= k < before.len() && before[k] == x;
                        assert(after[k] == x);
                    }
                }
                assert(after.to_set() =~= before.to_set().insert(id));
            }
        } else {
            proof {
                assert(old(self).plugins@.to_set().insert(id) =~= old(self).plugins@.to_set());
            }
        }
        true
    }

    /// Registers a plugin with the application and calls its
    /// [`Plugin::build`] on the application, which is then handed back for
    /// chaining. The plugin's identifier and uniqueness are those its
    /// [`Plugin::id`] and [`Plugin::is_unique`] report; a unique plugin whose
    /// identifier is already registered is not accepted (an application
    /// panics on it), so such a plugin is left out here.
    pub fn add_plugin<P: Plugin<R>>(&mut self, plugin: P) -> (r: &mut Self)
        requires
            plugin.ready(),
            forall|id: TypeId, unique: bool|
                call_ensures(P::id, (&plugin,), id) && call_ensures(P::is_unique, (&plugin,), unique)
                    ==> accepts_plugin(old(self)@.plugins, id, unique),
        ensures
            *final(self) == *final(r),
            exists|id: TypeId, unique: bool|
                call_ensures(P::id, (&plugin,), id) && call_ensures(P::is_unique, (&plugin,), unique)
                    && accepts_plugin(old(self)@.plugins, id, unique) && plugin.builds(
                    (AppView {
                        name: old(self)@.name,
                        runner: old(self)@.runner,
                        plugins: old(self)@.plugins.insert(id),
                    }),
                    r@,
                ),
    {
        let id = plugin.id();
        let unique = plugin.is_unique();
        let accepted = self.register_plugin(id, unique);
        assert(accepted);
        let ghost handed = self@;
        assert(handed == (AppView {
            name: old(self)@.name,
            runner: old(self)@.runner,
            plugins: old(self)@.plugins.insert(id),
        }));
        plugin.build(self);
        assert(call_ensures(P::id, (&plugin,), id) && call_ensures(P::is_unique, (&plugin,), unique)
            && accepts_plugin(old(self)@.plugins, id, unique) && plugin.builds(handed, self@));
        self
    }
}

/// Whether a registry holding `plugins` accepts a plugin with identifier
/// `id` that reports `unique`: only a unique plugin whose identifier is
/// already registered is refused.
pub open spec fn accepts_plugin(plugins: Set<TypeId>, id: TypeId, unique: bool) -> bool {
    !(unique && plugins.contains(id))
}

/// The registry after a plugin with identifier `id` that reports `unique`
/// was offered to a registry holding `plugins`.
pub open spec fn registry_after(plugins: Set<TypeId>, id: TypeId, unique: bool) -> Set<TypeId> {
    if accepts_plugin(plugins, id, unique) {
        plugins.insert(id)
    } else {
        plugins
    }
}

/// A fresh application accepts any plugin.
pub proof fn lemma_empty_registry_accepts(id: TypeId, unique: bool)
    ensures
        accepts_plugin(Set::empty(), id, unique),
        registry_after(Set::empty(), id, unique) == Set::<TypeId>::empty().insert(id),
{
}

/// A unique plugin can be added once: once a plugin's identifier is
/// registered, by whatever offer, a unique plugin with that identifier is
/// refused.
pub proof fn lemma_unique_plugin_added_once(
    plugins: Set<TypeId>,
    id: TypeId,
    first_unique: bool,
)
    requires
        accepts_plugin(plugins, id, first_unique),
    ensures
        registry_after(plugins, id, first_unique).contains(id),
        !accepts_plugin(registry_after(plugins, id, first_unique), id, true),
{
}

/// A plugin that is not unique is never refused, and offering it again
/// leaves the registry as it is.
pub proof fn lemma_non_unique_plugin_always_accepted(plugins: Set<TypeId>, id: TypeId)
    ensures
        accepts_plugin(plugins, id, false),
        registry_after(registry_after(plugins, id, false), id, false) == registry_after(
            plugins,
            id,
            false,
        ),
{
    assert(plugins.insert(id).insert(id) =~= plugins.insert(id));
}

/// Registration never forgets a plugin: the registry only grows, by at most
/// the offered identifier.
pub proof fn lemma_registry_grows(plugins: Set<TypeId>, id: TypeId, unique: bool, other: TypeId)
    ensures
        plugins.contains(other) ==> registry_after(plugins, id, unique).contains(other),
        registry_after(plugins, id, unique).contains(other) ==> plugins.contains(other) || other
            == id,
{
}

/// Plugins with different identifiers do not interfere: whether one is
/// accepted does not depend on whether the other was registered before.
pub proof fn lemma_distinct_plugins_independent(
    plugins: Set<TypeId>,
    a: TypeId,
    a_unique: bool,
    b: TypeId,
    b_unique: bool,
)
    requires
        a != b,
    ensures
        accepts_plugin(registry_after(plugins, a, a_unique), b, b_unique) == accepts_plugin(
            plugins,
            b,
            b_unique,
        ),
{
}

impl<R: AppRunner> App<R> {
    /// Runs the application by calling its runner, which is consumed: the
    /// application's runner is reset to [`run_once`] before the call (the
    /// runner may set another). With the default runner the result is
    /// [`AppExit::Success`] and the application stays as it was.
    pub fn run(&mut self) -> (r: AppExit)
        ensures
            old(self)@.runner is Once ==> r == AppExit::Success && *final(self) == *old(self),
            old(self)@.runner matches Runner::Custom(c) ==> c.runs(
                (AppView { name: old(self)@.name, runner: Runner::Once, plugins: old(self)@.plugins }),
                final(self)@,
                r,
            ),
    {
        proof {
            use_type_invariant(&*self);
        }
        let mut runner = Runner::Once;
        std::mem::swap(&mut runner, &mut self.runner);
        match runner {
            Runner::Once => run_once(self),
            Runner::Custom(custom) => custom.run_app(self),
        }
    }
}

} // verus!
