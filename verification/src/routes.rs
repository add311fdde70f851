//! The operations the management interface performs on the project
//! store.
//!
//! Each operation takes the store's record list and plain request
//! values; the surrounding interface layer parses the request, reads the
//! list from disk, calls the operation, and writes the list back.  The
//! mutating operations swallow a failed store call and leave the list as
//! it was, so a stray request never poisons the store.

use vstd::prelude::*;

use crate::project_store::Project;
use crate::project_store::Settings;
use crate::project_store::create_new_project;
use crate::project_store::delete_project;
use crate::project_store::end_project;
use crate::project_store::get_project;
use crate::project_store::set_project_settings;
use crate::project_store::spec_ended;
use crate::project_store::spec_has_project;
use crate::project_store::spec_is_first_match;
use crate::project_store::spec_new_project;
use crate::project_store::spec_start_blocked;
use crate::project_store::spec_started;
use crate::project_store::spec_with_name_description;
use crate::project_store::spec_with_settings;
use crate::project_store::start_project;
use crate::project_store::update_project;

verus! {

/// A request to create a project.
#[derive(Clone, Debug, Default, PartialEq)]
pub struct CreateRequest {
    pub name: String,
    pub description: String,
}

/// A request to change a project's name or description; a field left
/// empty keeps the stored value.
#[derive(Clone, Debug, Default, PartialEq)]
pub struct PutRequest {
    pub name: Option<String>,
    pub description: Option<String>,
}

/// Creates a project from a request, stamped with the creation time.
pub fn create(projects: &mut Vec<Project>, project: CreateRequest, created_at: u64)
    requires
        old(projects)@.len() < u32::MAX,
    ensures
        final(projects)@ == old(projects)@.push(
            spec_new_project(
                (old(projects)@.len() + 1) as u32,
                project.name,
                project.description,
                created_at,
            ),
        ),
{
    let _ = create_new_project(projects, project.name, project.description, created_at);
}

/// Applies a change request to the project with the identifier and
/// hands back a copy of the changed record; a missing identifier
/// changes nothing and hands back nothing.
pub fn update(projects: &mut Vec<Project>, id: u32, project: PutRequest) -> (r: Option<Project>)
    ensures
        !spec_has_project(old(projects)@, id) ==> r is None && final(projects)@ == old(projects)@,
        spec_has_project(old(projects)@, id) ==> (exists|i: int|
            {
                &&& #[trigger] spec_is_first_match(old(projects)@, id, i)
                &&& final(projects)@ == old(projects)@.update(
                    i,
                    spec_with_name_description(
                        old(projects)@[i],
                        project.name,
                        project.description,
                    ),
                )
                &&& r == Some(final(projects)@[i])
            }),
{
    let ghost s0 = projects@;
    let result = update_project(projects, id, project.name, project.description);
    match result {
        Ok(_) => {
            proof {
                let i = choose|i: int|
                    #[trigger] spec_is_first_match(s0, id, i) && projects@ == s0.update(
                        i,
                        spec_with_name_description(s0[i], project.name, project.description),
                    );
                assert(spec_is_first_match(projects@, id, i));
            }
            match get_project(projects, id) {
                Ok(p) => {
                    proof {
                        let i = choose|i: int|
                            #[trigger] spec_is_first_match(s0, id, i) && projects@ == s0.update(
                                i,
                                spec_with_name_description(
                                    s0[i],
                                    project.name,
                                    project.description,
                                ),
                            );
                        let i2 = choose|i2: int|
                            #[trigger] spec_is_first_match(projects@, id, i2) && p == projects@[i2];
                        lemma_first_match_unique(projects@, id, i, i2);
                    }
                    Some(p)
                },
                Err(_) => None,
            }
        },
        Err(_) => None,
    }
}

/// Two first-match positions for one identifier are the same position.
proof fn lemma_first_match_unique(s: Seq<Project>, id: u32, a: int, b: int)
    requires
        spec_is_first_match(s, id, a),
        spec_is_first_match(s, id, b),
    ensures
        a == b,
{
    if a < b {
        assert(s[a].id == id);
    } else if b < a {
        assert(s[b].id == id);
    }
}

/// Deletes the project with the identifier; a missing identifier
/// changes nothing.
pub fn delete(projects: &mut Vec<Project>, id: u32)
    ensures
        !spec_has_project(old(projects)@, id) ==> final(projects)@ == old(projects)@,
        spec_has_project(old(projects)@, id) ==> (exists|i: int|
            #[trigger] spec_is_first_match(old(projects)@, id, i) && final(projects)@ == old(
                projects,
            )@.remove(i)),
{
    let _ = delete_project(projects, id);
}

/// Starts the project with the identifier at the given time; a missing
/// identifier, or another project already running, changes nothing.
pub fn start(projects: &mut Vec<Project>, id: u32, start_at: u64)
    ensures
        spec_start_blocked(old(projects)@, id) || !spec_has_project(old(projects)@, id) ==> final(projects)@ == old(projects)@,
        !spec_start_blocked(old(projects)@, id) && spec_has_project(old(projects)@, id) ==> (
        exists|i: int|
            #[trigger] spec_is_first_match(old(projects)@, id, i) && final(projects)@ == old(
                projects,
            )@.update(i, spec_started(old(projects)@[i], start_at))),
{
    let _ = start_project(projects, id, start_at);
}

/// Ends the project with the identifier at the given time; a missing
/// identifier changes nothing.
pub fn end(projects: &mut Vec<Project>, id: u32, endend_at: u64)
    ensures
        !spec_has_project(old(projects)@, id) ==> final(projects)@ == old(projects)@,
        spec_has_project(old(projects)@, id) ==> (exists|i: int|
            #[trigger] spec_is_first_match(old(projects)@, id, i) && final(projects)@ == old(
                projects,
            )@.update(i, spec_ended(old(projects)@[i], endend_at))),
{
    let _ = end_project(projects, id, endend_at);
}

/// Replaces the target settings of the project with the identifier; a
/// missing identifier changes nothing.
pub fn set_settings(projects: &mut Vec<Project>, id: u32, settings: Settings)
    ensures
        !spec_has_project(old(projects)@, id) ==> final(projects)@ == old(projects)@,
        spec_has_project(old(projects)@, id) ==> (exists|i: int|
            #[trigger] spec_is_first_match(old(projects)@, id, i) && final(projects)@ == old(
                projects,
            )@.update(i, spec_with_settings(old(projects)@[i], settings))),
{
    let _ = set_project_settings(projects, id, settings);
}

} // verus!
