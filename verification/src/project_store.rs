//! The project store's records and the rules that govern them.
//!
//! A project names one fermentation batch: its target settings, when it
//! was created, and when it was started and ended.  The store is a flat
//! list of records; reading it from disk and writing it back are the
//! persistence layer's work, so every function here operates on the list
//! itself.  Identifiers are assigned as list length plus one, records
//! are addressed by the first match on their identifier, and at most one
//! project is running at a time.

use vstd::prelude::*;

use crate::errors::StoreError;

verus! {

/// Humidity target, in tenths of a percent, that a new project starts
/// with.
pub const NEW_PROJECT_HUM_TENTHS: i32 = 750;

/// Temperature target, in tenths of a degree, that a new project starts
/// with.
pub const NEW_PROJECT_TEMP_TENTHS: i32 = 300;

/// A project's target settings: humidity in tenths of a percent relative
/// humidity, temperature in tenths of a degree Celsius.
#[derive(Clone, Copy, Debug, Default, PartialEq, Eq, Structural)]
pub struct Settings {
    pub hum_tenths: i32,
    pub temp_tenths: i32,
}

/// One project record.
#[derive(Clone, Debug, Default, PartialEq)]
pub struct Project {
    pub id: u32,
    pub name: String,
    pub description: String,
    pub created_at: u64,
    pub start_at: Option<u64>,
    pub endend_at: Option<u64>,
    pub settings: Settings,
}

impl Project {
    /// A fresh deep copy of the record.
    pub fn copied(&self) -> (r: Project)
        ensures
            r == *self,
    {
        Project {
            id: self.id,
            name: self.name.clone(),
            description: self.description.clone(),
            created_at: self.created_at,
            start_at: self.start_at,
            endend_at: self.endend_at,
            settings: self.settings,
        }
    }
}

/// Whether a record is running: started and not yet ended.
pub open spec fn spec_active(p: Project) -> bool {
    p.start_at is Some && p.endend_at is None
}

/// Whether some record carries this identifier.
pub open spec fn spec_has_project(s: Seq<Project>, id: u32) -> bool {
    exists|i: int| 0 <= i < s.len() && (#[trigger] s[i]).id == id
}

/// Whether `i` is the first position carrying this identifier.
pub open spec fn spec_is_first_match(s: Seq<Project>, id: u32, i: int) -> bool {
    &&& 0 <= i < s.len()
    &&& s[i].id == id
    &&& forall|j: int| 0 <= j < i ==> (#[trigger] s[j]).id != id
}

/// Whether some record is running.
pub open spec fn spec_has_active(s: Seq<Project>) -> bool {
    exists|i: int| 0 <= i < s.len() && spec_active(#[trigger] s[i])
}

/// Whether `i` is the first position whose record is running.
pub open spec fn spec_is_first_active(s: Seq<Project>, i: int) -> bool {
    &&& 0 <= i < s.len()
    &&& spec_active(s[i])
    &&& forall|j: int| 0 <= j < i ==> !spec_active(#[trigger] s[j])
}

/// The record a new project starts as.
pub open spec fn spec_new_project(id: u32, name: String, description: String, created_at: u64)
    -> Project {
    Project {
        id,
        name,
        description,
        created_at,
        start_at: None,
        endend_at: None,
        settings: Settings {
            hum_tenths: NEW_PROJECT_HUM_TENTHS,
            temp_tenths: NEW_PROJECT_TEMP_TENTHS,
        },
    }
}

/// A record with its name and description replaced where a replacement
/// was given.
pub open spec fn spec_with_name_description(
    p: Project,
    name: Option<String>,
    description: Option<String>,
) -> Project {
    Project {
        name: match name {
            Some(n) => n,
            None => p.name,
        },
        description: match description {
            Some(d) => d,
            None => p.description,
        },
        ..p
    }
}

/// A record marked started at a time.
pub open spec fn spec_started(p: Project, start_at: u64) -> Project {
    Project { start_at: Some(start_at), ..p }
}

/// A record marked ended at a time.
pub open spec fn spec_ended(p: Project, endend_at: u64) -> Project {
    Project { endend_at: Some(endend_at), ..p }
}

/// A record with its target settings replaced.
pub open spec fn spec_with_settings(p: Project, settings: Settings) -> Project {
    Project { settings, ..p }
}

/// The first position carrying this identifier, if any.
fn find_index(projects: &Vec<Project>, id: u32) -> (r: Option<usize>)
    ensures
        r matches Some(i) ==> spec_is_first_match(projects@, id, i as int),
        r is Some <==> spec_has_project(projects@, id),
{
    let n = projects.len();
    let mut k: usize = 0;
    while k < n
        invariant
            n == projects@.len(),
            k <= n,
            forall|j: int| 0 <= j < k ==> (#[trigger] projects@[j]).id != id,
        decreases n - k,
    {
        if projects[k].id == id {
            return Some(k);
        }
        k = k + 1;
    }
    None
}

/// The first position whose record is running, if any.
fn find_active(projects: &Vec<Project>) -> (r: Option<usize>)
    ensures
        r matches Some(i) ==> spec_is_first_active(projects@, i as int),
        r is Some <==> spec_has_active(projects@),
{
    let n = projects.len();
    let mut k: usize = 0;
    while k < n
        invariant
            n == projects@.len(),
            k <= n,
            forall|j: int| 0 <= j < k ==> !spec_active(#[trigger] projects@[j]),
        decreases n - k,
    {
        if projects[k].start_at.is_some() && projects[k].endend_at.is_none() {
            return Some(k);
        }
        k = k + 1;
    }
    None
}

/// Appends a new project: it takes the next identifier (list length plus
/// one), the given name and description, the creation time, no start and
/// no end, and the default target settings.
pub fn create_new_project(
    projects: &mut Vec<Project>,
    name: String,
    description: String,
    created_at: u64,
) -> (r: Result<(), StoreError>)
    requires
        old(projects)@.len() < u32::MAX,
    ensures
        r is Ok,
        final(projects)@ == old(projects)@.push(
            spec_new_project((old(projects)@.len() + 1) as u32, name, description, created_at),
        ),
{
    let id: u32 = projects.len() as u32 + 1;
    let project = Project {
        id,
        name,
        description,
        created_at,
        start_at: None,
        endend_at: None,
        settings: Settings {
            hum_tenths: NEW_PROJECT_HUM_TENTHS,
            temp_tenths: NEW_PROJECT_TEMP_TENTHS,
        },
    };
    projects.push(project);
    Ok(())
}

/// Replaces the record at a position, keeping every other record.
fn replace_at(projects: &mut Vec<Project>, i: usize, p: Project)
    requires
        i < old(projects)@.len(),
    ensures
        final(projects)@ == old(projects)@.update(i as int, p),
{
    let _removed = projects.remove(i);
    projects.insert(i, p);
    proof {
        assert(projects@ =~= old(projects)@.update(i as int, p));
    }
}

/// Updates the name and description of the first record carrying the
/// identifier, each only where a replacement was given; fails with
/// `ProjectNotFound`, changing nothing, exactly when no record carries
/// it.
pub fn update_project(
    projects: &mut Vec<Project>,
    id: u32,
    name: Option<String>,
    description: Option<String>,
) -> (r: Result<(), StoreError>)
    ensures
        r is Ok <==> spec_has_project(old(projects)@, id),
        !spec_has_project(old(projects)@, id) ==> r == Err::<(), StoreError>(
            StoreError::ProjectNotFound,
        ) && final(projects)@ == old(projects)@,
        spec_has_project(old(projects)@, id) ==> (exists|i: int|
            #[trigger] spec_is_first_match(old(projects)@, id, i) && final(projects)@ == old(
                projects,
            )@.update(i, spec_with_name_description(old(projects)@[i], name, description))),
{
    match find_index(projects, id) {
        Some(i) => {
            let old_p = projects.remove(i);
            let new_p = Project {
                id: old_p.id,
                name: match name {
                    Some(n) => n,
                    None => old_p.name,
                },
                description: match description {
                    Some(d) => d,
                    None => old_p.description,
                },
                created_at: old_p.created_at,
                start_at: old_p.start_at,
                endend_at: old_p.endend_at,
                settings: old_p.settings,
            };
            projects.insert(i, new_p);
            proof {
                assert(projects@ =~= old(projects)@.update(
                    i as int,
                    spec_with_name_description(old(projects)@[i as int], name, description),
                ));
            }
            Ok(())
        },
        None => Err(StoreError::ProjectNotFound),
    }
}

/// Removes the first record carrying the identifier; fails with
/// `ProjectNotFound`, changing nothing, exactly when no record carries
/// it.
pub fn delete_project(projects: &mut Vec<Project>, id: u32) -> (r: Result<(), StoreError>)
    ensures
        r is Ok <==> spec_has_project(old(projects)@, id),
        !spec_has_project(old(projects)@, id) ==> r == Err::<(), StoreError>(
            StoreError::ProjectNotFound,
        ) && final(projects)@ == old(projects)@,
        spec_has_project(old(projects)@, id) ==> (exists|i: int|
            #[trigger] spec_is_first_match(old(projects)@, id, i) && final(projects)@ == old(
                projects,
            )@.remove(i)),
{
    match find_index(projects, id) {
        Some(i) => {
            let _removed = projects.remove(i);
            Ok(())
        },
        None => Err(StoreError::ProjectNotFound),
    }
}

/// Whether starting the project with this identifier is blocked: some
/// other project is already running.
pub open spec fn spec_start_blocked(s: Seq<Project>, id: u32) -> bool {
    exists|a: int| #[trigger] spec_is_first_active(s, a) && s[a].id != id
}

/// Marks the first record carrying the identifier as started at the
/// given time.  Fails with `AnotherProjectRunning`, changing nothing,
/// when a different project is already running; fails with
/// `ProjectNotFound`, changing nothing, when no record carries the
/// identifier; succeeds otherwise.
pub fn start_project(projects: &mut Vec<Project>, id: u32, start_at: u64) -> (r: Result<
    (),
    StoreError,
>)
    ensures
        spec_start_blocked(old(projects)@, id) ==> r == Err::<(), StoreError>(
            StoreError::AnotherProjectRunning,
        ) && final(projects)@ == old(projects)@,
        !spec_start_blocked(old(projects)@, id) && !spec_has_project(old(projects)@, id) ==> r
            == Err::<(), StoreError>(StoreError::ProjectNotFound) && final(projects)@ == old(
            projects,
        )@,
        !spec_start_blocked(old(projects)@, id) && spec_has_project(old(projects)@, id) ==> r is Ok
            && (exists|i: int|
            #[trigger] spec_is_first_match(old(projects)@, id, i) && final(projects)@ == old(
                projects,
            )@.update(i, spec_started(old(projects)@[i], start_at))),
{
    let ghost s = projects@;
    match find_active(projects) {
        Some(a) => {
            if projects[a].id != id {
                proof {
                    assert(spec_start_blocked(s, id));
                }
                return Err(StoreError::AnotherProjectRunning);
            }
            proof {
                lemma_first_active_unique(s, a as int);
            }
        },
        None => {
            proof {
                assert forall|a2: int| !(#[trigger] spec_is_first_active(s, a2)) by {
                    if 0 <= a2 < s.len() && spec_active(s[a2]) {
                        assert(spec_has_active(s));
                    }
                }
            }
        },
    }
    match find_index(projects, id) {
        Some(i) => {
            let old_p = projects.remove(i);
            let new_p = Project {
                id: old_p.id,
                name: old_p.name,
                description: old_p.description,
                created_at: old_p.created_at,
                start_at: Some(start_at),
                endend_at: old_p.endend_at,
                settings: old_p.settings,
            };
            projects.insert(i, new_p);
            proof {
                assert(projects@ =~= s.update(i as int, spec_started(s[i as int], start_at)));
            }
            Ok(())
        },
        None => Err(StoreError::ProjectNotFound),
    }
}

/// The first running record is the only one: any position that is also
/// a first running record is the same position, so a successful check
/// against it covers every running record the search could name.
proof fn lemma_first_active_unique(s: Seq<Project>, a: int)
    requires
        spec_is_first_active(s, a),
    ensures
        forall|a2: int| #[trigger] spec_is_first_active(s, a2) ==> a2 == a,
{
    assert forall|a2: int| #[trigger] spec_is_first_active(s, a2) implies a2 == a by {
        if a2 < a {
            assert(spec_active(s[a2]));
        } else if a2 > a {
            assert(spec_active(s[a]));
        }
    }
}

/// Marks the first record carrying the identifier as ended at the given
/// time; fails with `ProjectNotFound`, changing nothing, exactly when no
/// record carries it.
pub fn end_project(projects: &mut Vec<Project>, id: u32, endend_at: u64) -> (r: Result<
    (),
    StoreError,
>)
    ensures
        r is Ok <==> spec_has_project(old(projects)@, id),
        !spec_has_project(old(projects)@, id) ==> r == Err::<(), StoreError>(
            StoreError::ProjectNotFound,
        ) && final(projects)@ == old(projects)@,
        spec_has_project(old(projects)@, id) ==> (exists|i: int|
            #[trigger] spec_is_first_match(old(projects)@, id, i) && final(projects)@ == old(
                projects,
            )@.update(i, spec_ended(old(projects)@[i], endend_at))),
{
    match find_index(projects, id) {
        Some(i) => {
            let old_p = projects.remove(i);
            let new_p = Project {
                id: old_p.id,
                name: old_p.name,
                description: old_p.description,
                created_at: old_p.created_at,
                start_at: old_p.start_at,
                endend_at: Some(endend_at),
                settings: old_p.settings,
            };
            projects.insert(i, new_p);
            proof {
                assert(projects@ =~= old(projects)@.update(
                    i as int,
                    spec_ended(old(projects)@[i as int], endend_at),
                ));
            }
            Ok(())
        },
        None => Err(StoreError::ProjectNotFound),
    }
}

/// Replaces the target settings of the first record carrying the
/// identifier; fails with `ProjectNotFound`, changing nothing, exactly
/// when no record carries it.
pub fn set_project_settings(projects: &mut Vec<Project>, id: u32, settings: Settings) -> (r:
    Result<(), StoreError>)
    ensures
        r is Ok <==> spec_has_project(old(projects)@, id),
        !spec_has_project(old(projects)@, id) ==> r == Err::<(), StoreError>(
            StoreError::ProjectNotFound,
        ) && final(projects)@ == old(projects)@,
        spec_has_project(old(projects)@, id) ==> (exists|i: int|
            #[trigger] spec_is_first_match(old(projects)@, id, i) && final(projects)@ == old(
                projects,
            )@.update(i, spec_with_settings(old(projects)@[i], settings))),
{
    match find_index(projects, id) {
        Some(i) => {
            let old_p = projects.remove(i);
            let new_p = Project {
                id: old_p.id,
                name: old_p.name,
                description: old_p.description,
                created_at: old_p.created_at,
                start_at: old_p.start_at,
                endend_at: old_p.endend_at,
                settings,
            };
            projects.insert(i, new_p);
            proof {
                assert(projects@ =~= old(projects)@.update(
                    i as int,
                    spec_with_settings(old(projects)@[i as int], settings),
                ));
            }
            Ok(())
        },
        None => Err(StoreError::ProjectNotFound),
    }
}

/// Hands out a copy of the first record carrying the identifier; fails
/// with `ProjectNotFound` exactly when no record carries it.
pub fn get_project(projects: &Vec<Project>, id: u32) -> (r: Result<Project, StoreError>)
    ensures
        r is Ok <==> spec_has_project(projects@, id),
        r matches Ok(p) ==> (exists|i: int|
            #[trigger] spec_is_first_match(projects@, id, i) && p == projects@[i]),
        !spec_has_project(projects@, id) ==> r == Err::<Project, StoreError>(
            StoreError::ProjectNotFound,
        ),
{
    match find_index(projects, id) {
        Some(i) => Ok(projects[i].copied()),
        None => Err(StoreError::ProjectNotFound),
    }
}

/// Hands out a copy of the running record — the first started and not
/// yet ended; fails with `ProjectNotFound` exactly when none is running.
pub fn get_active_project(projects: &Vec<Project>) -> (r: Result<Project, StoreError>)
    ensures
        r is Ok <==> spec_has_active(projects@),
        r matches Ok(p) ==> (exists|i: int|
            #[trigger] spec_is_first_active(projects@, i) && p == projects@[i]),
        !spec_has_active(projects@) ==> r == Err::<Project, StoreError>(
            StoreError::ProjectNotFound,
        ),
{
    match find_active(projects) {
        Some(i) => Ok(projects[i].copied()),
        None => Err(StoreError::ProjectNotFound),
    }
}

} // verus!
