use vstd::prelude::*;

use crate::apps::{app_builders, app_compatible, app_name, app_order, AppBuilders};
use crate::auth::AuthController;
use crate::error::Erro;
use crate::files::{builder_matches, file_builders, file_name, file_order, FileBuilders};
use crate::os::Os;
use crate::system::{System, SystemManager};
use crate::task::TaskController;
use crate::text::str_eq;

verus! {

/// The first handler at or after index `i` that applies to `path` on `os`.
pub open spec fn first_match_from(order: Seq<FileBuilders>, path: Seq<char>, os: Os, i: int) -> Option<int>
    decreases order.len() - i,
{
    if i < 0 || i >= order.len() {
        None
    } else if builder_matches(order[i], path, os) {
        Some(i)
    } else {
        first_match_from(order, path, os, i + 1)
    }
}

/// What resolving `path` on `os` yields: the first registered handler whose
/// pattern and tag both match, or `FilesNotMatchedByPattern`.
pub open spec fn resolve_spec(order: Seq<FileBuilders>, path: Seq<char>, os: Os) -> Option<FileBuilders> {
    match first_match_from(order, path, os, 0) {
        Some(i) => Some(order[i]),
        None => None,
    }
}

/// The first handler found is a matching one, and no handler registered
/// before it matches; when none is found, no registered handler matches.
pub proof fn lemma_first_match(order: Seq<FileBuilders>, path: Seq<char>, os: Os, i: int)
    requires
        0 <= i,
    ensures
        first_match_from(order, path, os, i) matches Some(k) ==> i <= k < order.len()
            && builder_matches(order[k], path, os) && forall|j: int|
            i <= j < k ==> !builder_matches(#[trigger] order[j], path, os),
        first_match_from(order, path, os, i) is None ==> forall|j: int|
            i <= j < order.len() ==> !builder_matches(#[trigger] order[j], path, os),
    decreases order.len() - i,
{
    if i < order.len() && !builder_matches(order[i], path, os) {
        lemma_first_match(order, path, os, i + 1);
    }
}

/// The index of the first app at or after `i` with the given name.
pub open spec fn first_app_named(apps: Seq<AppBuilders>, name: Seq<char>, i: int) -> Option<int>
    decreases apps.len() - i,
{
    if i < 0 || i >= apps.len() {
        None
    } else if app_name(apps[i]) == name {
        Some(i)
    } else {
        first_app_named(apps, name, i + 1)
    }
}

/// The index of the first file handler at or after `i` with the given name.
pub open spec fn first_file_named(files: Seq<FileBuilders>, name: Seq<char>, i: int) -> Option<int>
    decreases files.len() - i,
{
    if i < 0 || i >= files.len() {
        None
    } else if file_name(files[i]) == name {
        Some(i)
    } else {
        first_file_named(files, name, i + 1)
    }
}

/// The app a request names: the first registered one with that name.
pub open spec fn app_lookup(apps: Seq<AppBuilders>, name: Seq<char>) -> Option<AppBuilders> {
    match first_app_named(apps, name, 0) {
        Some(i) => Some(apps[i]),
        None => None,
    }
}

/// What a request to run app `name` on a target tagged `os` resolves to.
pub open spec fn runnable_spec(apps: Seq<AppBuilders>, name: Seq<char>, os: Os) -> Result<
    AppBuilders,
    Erro,
> {
    match app_lookup(apps, name) {
        None => Err(Erro::AppNotFound),
        Some(k) => if app_compatible(k, os) {
            Ok(k)
        } else {
            Err(Erro::AppIncompatible)
        },
    }
}

/// The first app with a name is one with that name, and none before it
/// has the name; when none is found, no registered app has it.
pub proof fn lemma_first_app_named(apps: Seq<AppBuilders>, name: Seq<char>, i: int)
    requires
        0 <= i,
    ensures
        first_app_named(apps, name, i) matches Some(k) ==> i <= k < apps.len() && app_name(
            apps[k],
        ) == name && forall|j: int| i <= j < k ==> app_name(#[trigger] apps[j]) != name,
        first_app_named(apps, name, i) is None ==> forall|j: int|
            i <= j < apps.len() ==> app_name(#[trigger] apps[j]) != name,
    decreases apps.len() - i,
{
    if i < apps.len() && app_name(apps[i]) != name {
        lemma_first_app_named(apps, name, i + 1);
    }
}

/// All that one endpoint needs: the handler registries, the task ledger,
/// the token list and the lazily resolved system.
pub struct Controller {
    files: Vec<FileBuilders>,
    apps: Vec<AppBuilders>,
    task_controller: TaskController,
    auth: AuthController,
    system_manager: SystemManager,
}

impl Controller {
    pub closed spec fn files_view(&self) -> Seq<FileBuilders> {
        self.files@
    }

    pub closed spec fn apps_view(&self) -> Seq<AppBuilders> {
        self.apps@
    }

    pub closed spec fn tasks_view(&self) -> TaskController {
        self.task_controller
    }

    pub closed spec fn auth_view(&self) -> AuthController {
        self.auth
    }

    pub closed spec fn system_manager_view(&self) -> SystemManager {
        self.system_manager
    }

    /// A controller for the local host (`address` is `None`) or for a
    /// remote endpoint, whose tokens live `max_token_expiration` seconds.
    pub fn new(max_token_expiration: u64, address: Option<&str>) -> (r: Controller)
        ensures
            r.files_view() == file_order(),
            r.apps_view() == app_order(),
            r.tasks_view().wf(),
            r.tasks_view().ledger().len() == 0,
            r.auth_view().wf(),
            r.auth_view().records().len() == 0,
            r.auth_view().ttl() == max_token_expiration,
            r.system_manager_view().cached_view() is None,
            r.system_manager_view().endpoint_view() == match address {
                Some(a) => Some(a@),
                None => None,
            },
    {
        Controller {
            files: file_builders(),
            apps: app_builders(),
            task_controller: TaskController::default(),
            auth: AuthController::new(max_token_expiration),
            system_manager: SystemManager::new(address),
        }
    }

    pub fn system_manager_mut(&mut self) -> (r: &mut SystemManager)
        ensures
            *r == old(self).system_manager_view(),
            final(self).system_manager_view() == *final(r),
            final(self).files_view() == old(self).files_view(),
            final(self).apps_view() == old(self).apps_view(),
            final(self).tasks_view() == old(self).tasks_view(),
            final(self).auth_view() == old(self).auth_view(),
    {
        &mut self.system_manager
    }

    pub fn auth_mut(&mut self) -> (r: &mut AuthController)
        ensures
            *r == old(self).auth_view(),
            final(self).auth_view() == *final(r),
            final(self).files_view() == old(self).files_view(),
            final(self).apps_view() == old(self).apps_view(),
            final(self).tasks_view() == old(self).tasks_view(),
            final(self).system_manager_view() == old(self).system_manager_view(),
    {
        &mut self.auth
    }

    pub fn task_controller(&self) -> (r: &TaskController)
        ensures
            *r == self.tasks_view(),
    {
        &self.task_controller
    }

    pub fn task_controller_mut(&mut self) -> (r: &mut TaskController)
        ensures
            *r == old(self).tasks_view(),
            final(self).tasks_view() == *final(r),
            final(self).files_view() == old(self).files_view(),
            final(self).apps_view() == old(self).apps_view(),
            final(self).auth_view() == old(self).auth_view(),
            final(self).system_manager_view() == old(self).system_manager_view(),
    {
        &mut self.task_controller
    }

    pub fn file_builders(&self) -> (r: &[FileBuilders])
        ensures
            r@ == self.files_view(),
    {
        self.files.as_slice()
    }

    pub fn apps(&self) -> (r: &[AppBuilders])
        ensures
            r@ == self.apps_view(),
    {
        self.apps.as_slice()
    }

    /// The first registered file handler with the given name.
    pub fn file_builders_by_name(&self, name: &str) -> (r: Result<FileBuilders, Erro>)
        ensures
            match first_file_named(self.files_view(), name@, 0) {
                Some(i) => r == Ok::<FileBuilders, Erro>(self.files_view()[i]),
                None => r matches Err(Erro::FilesNotMatchedByName(n)) && n@ == name@,
            },
    {
        let mut i: usize = 0;
        while i < self.files.len()
            invariant
                i <= self.files@.len(),
                first_file_named(self.files@, name@, 0) == first_file_named(self.files@, name@, i as int),
            decreases self.files@.len() - i,
        {
            if str_eq(self.files[i].name(), name) {
                return Ok(self.files[i]);
            }
            i = i + 1;
        }
        Err(Erro::FilesNotMatchedByName(name.to_string()))
    }

    /// The first registered file handler that applies to `path` on `os`.
    pub fn resolve_by_path(&self, path: &str, os: &Os) -> (r: Result<FileBuilders, Erro>)
        ensures
            match resolve_spec(self.files_view(), path@, *os) {
                Some(k) => r == Ok::<FileBuilders, Erro>(k),
                None => r matches Err(Erro::FilesNotMatchedByPattern(p)) && p@ == path@,
            },
    {
        let mut i: usize = 0;
        while i < self.files.len()
            invariant
                i <= self.files@.len(),
                first_match_from(self.files@, path@, *os, 0) == first_match_from(
                    self.files@,
                    path@,
                    *os,
                    i as int,
                ),
            decreases self.files@.len() - i,
        {
            if self.files[i].is_match(path, os) {
                return Ok(self.files[i]);
            }
            i = i + 1;
        }
        Err(Erro::FilesNotMatchedByPattern(path.to_string()))
    }

    /// Resolves `path` against the system's detected tag.
    pub fn file_builders_by_match(&self, path: &str, system: &System) -> (r: Result<
        FileBuilders,
        Erro,
    >)
        ensures
            match system.os_view() {
                None => r == Err::<FileBuilders, Erro>(Erro::OsDetection),
                Some(os) => match resolve_spec(self.files_view(), path@, os) {
                    Some(k) => r == Ok::<FileBuilders, Erro>(k),
                    None => r matches Err(Erro::FilesNotMatchedByPattern(p)) && p@ == path@,
                },
            },
    {
        let os = match system.os() {
            Ok(o) => o,
            Err(e) => return Err(e),
        };
        self.resolve_by_path(path, &os)
    }

    /// The first registered app with the given name.
    pub fn app(&self, name: &str) -> (r: Option<AppBuilders>)
        ensures
            r == app_lookup(self.apps_view(), name@),
    {
        let mut i: usize = 0;
        while i < self.apps.len()
            invariant
                i <= self.apps@.len(),
                first_app_named(self.apps@, name@, 0) == first_app_named(self.apps@, name@, i as int),
            decreases self.apps@.len() - i,
        {
            if str_eq(self.apps[i].name(), name) {
                return Some(self.apps[i]);
            }
            i = i + 1;
        }
        None
    }

    /// The app to run for a request: the first registered app with that
    /// name, which must support `os`.
    pub fn runnable_app(&self, name: &str, os: &Os) -> (r: Result<AppBuilders, Erro>)
        ensures
            r == runnable_spec(self.apps_view(), name@, *os),
    {
        match self.app(name) {
            None => Err(Erro::AppNotFound),
            Some(k) => if k.compatible(os) {
                Ok(k)
            } else {
                Err(Erro::AppIncompatible)
            },
        }
    }
}

} // verus!
