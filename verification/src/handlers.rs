//! The orchestrator: one operation per endpoint.
//!
//! Each operation is a small state machine: validate the input, invoke the
//! store, classify the outcome, and produce a result descriptor — the status
//! and payload variant that the rendering layer turns into a page or a
//! fragment. The display-only annotations ("in edit mode", "validation
//! failed") live on the descriptors, never on the entity itself.

use crate::db::find_index;
use crate::db::List;
use crate::db::ListModel;
use crate::db::Repo;
use crate::error::AppError;
use vstd::prelude::*;

verus! {

/// What `str::trim` returns for these characters.
pub uninterp spec fn trim_of(s: Seq<char>) -> Seq<char>;

/// Relies on str::trim: returns the input without leading and trailing
/// whitespace, a result that depends on the characters alone.
#[verifier::external_body]
fn trim_str(s: &str) -> (r: String)
    ensures
        r@ == trim_of(s@),
{
    s.trim().to_string()
}

/// The form body of a creation request.
#[derive(Debug)]
pub struct CreateListForm {
    pub name: String,
}

/// The form body of an update request.
#[derive(Debug)]
pub struct UpdateListForm {
    pub name: String,
}

/// Descriptor for the full listing page: every row, plus a blank template
/// entity the rendering layer uses for the creation form.
#[derive(Debug)]
pub struct ListsIndexView {
    pub lists: Vec<List>,
    pub new_list: List,
    pub editing_name: bool,
}

/// Descriptor for a single-entity fragment, with the display-only flag that
/// marks it as being in edit mode.
#[derive(Debug)]
pub struct ListCardView {
    pub list: List,
    pub editing_name: bool,
}

/// Descriptor for the creation form fragment, echoing the rejected input
/// together with the validation message the boundary renders.
#[derive(Debug)]
pub struct ListCreateFormView {
    pub new_list: List,
    pub message: String,
}

/// Terminal state of the create operation: the input was rejected before
/// any store call, or the entity was created.
#[derive(Debug)]
pub enum CreateOutcome {
    ValidationFailed(ListCreateFormView),
    Created(ListCardView),
}

/// Terminal state of the update operation: the input was rejected before
/// any store call, or the (possibly unchanged) entity after the update.
#[derive(Debug)]
pub enum UpdateOutcome {
    ValidationFailed,
    Updated(ListCardView),
}

impl CreateOutcome {
    /// The HTTP status the boundary renders for this outcome: a client
    /// error for rejected input, success for a created entity.
    pub fn status_code(&self) -> (code: u16)
        ensures
            self is ValidationFailed <==> code == 400,
            self is Created <==> code == 200,
    {
        match self {
            CreateOutcome::ValidationFailed(_) => 400,
            CreateOutcome::Created(_) => 200,
        }
    }
}

impl UpdateOutcome {
    /// The HTTP status the boundary renders for this outcome: a client
    /// error for rejected input, success for an updated entity.
    pub fn status_code(&self) -> (code: u16)
        ensures
            self is ValidationFailed <==> code == 400,
            self is Updated <==> code == 200,
    {
        match self {
            UpdateOutcome::ValidationFailed => 400,
            UpdateOutcome::Updated(_) => 200,
        }
    }
}

/// The listing operation: no validation, always succeeds. The descriptor
/// carries every stored row in ascending id order and a blank template
/// entity (empty name, no id, zero instants — the boundary renders only its
/// name) for the creation form.
pub fn lists_index(repo: &Repo) -> (r: Result<ListsIndexView, AppError>)
    requires
        repo.wf(),
    ensures
        r matches Ok(v) && v.lists@.len() == repo@.rows.len() && (forall|i: int|
            0 <= i < v.lists@.len() ==> #[trigger] v.lists@[i]@ == repo@.rows[i])
            && v.new_list.id == 0 && v.new_list.name@ == Seq::<char>::empty()
            && v.new_list.created_at == 0 && v.new_list.updated_at == 0 && !v.editing_name,
        r matches Ok(v) ==> forall|i: int, j: int|
            0 <= i < j < v.lists@.len() ==> #[trigger] v.lists@[i]@.id < #[trigger] v.lists@[j]@.id,
{
    let lists = match repo.filter_lists() {
        Ok(v) => v,
        Err(e) => return Err(e),
    };
    let new_list = List { id: 0, name: String::new(), created_at: 0, updated_at: 0 };
    Ok(ListsIndexView { lists, new_list, editing_name: false })
}

/// The create operation. The submitted name is trimmed; an empty result is
/// rejected before any store call — whatever the store's state — and the
/// descriptor echoes the rejected (trimmed) input back with the validation
/// message and a client-error status. A non-empty name is handed to the
/// store, and the descriptor carries the persisted entity, not in edit
/// mode; a store whose counters are exhausted reports a classified failure
/// instead.
pub fn create_list(repo: &mut Repo, form: &CreateListForm) -> (r: Result<CreateOutcome, AppError>)
    requires
        old(repo).wf(),
    ensures
        final(repo).wf(),
        trim_of(form.name@).len() == 0 ==> (r matches Ok(o) && o matches
            CreateOutcome::ValidationFailed(f) && f.new_list.name@ == trim_of(form.name@)
            && f.new_list.id == 0 && f.new_list.created_at == 0 && f.new_list.updated_at == 0
            && f.message@ == "name cannot be empty"@ && final(repo)@ == old(repo)@),
        trim_of(form.name@).len() > 0 && old(repo)@.next_id < i64::MAX && old(repo)@.clock
            < i64::MAX ==> (r matches Ok(o) && o matches CreateOutcome::Created(c)
            && c.list@ == (ListModel {
            id: old(repo)@.next_id,
            name: trim_of(form.name@),
            created_at: old(repo)@.clock + 1,
            updated_at: old(repo)@.clock + 1,
        }) && !c.editing_name && final(repo)@.rows == old(repo)@.rows.push(c.list@)
            && final(repo)@.next_id == old(repo)@.next_id + 1 && final(repo)@.clock == old(
            repo,
        )@.clock + 1),
        trim_of(form.name@).len() > 0 && !(old(repo)@.next_id < i64::MAX && old(repo)@.clock
            < i64::MAX) ==> (r matches Err(e) && e is Other && final(repo)@ == old(repo)@),
{
    let name = trim_str(form.name.as_str());
    if name.as_str().is_empty() {
        let rejected = List { id: 0, name, created_at: 0, updated_at: 0 };
        return Ok(
            CreateOutcome::ValidationFailed(
                ListCreateFormView {
                    new_list: rejected,
                    message: String::from_str("name cannot be empty"),
                },
            ),
        );
    }
    let list = match repo.create_list(name.as_str()) {
        Ok(l) => l,
        Err(e) => return Err(e),
    };
    Ok(CreateOutcome::Created(ListCardView { list, editing_name: false }))
}

/// The read-for-editing operation: look the row up by id; a missing id
/// propagates as a client error, and a found entity is marked as being in
/// edit mode — a display-only flag on the descriptor.
pub fn edit_list(repo: &Repo, id: i64) -> (r: Result<ListCardView, AppError>)
    requires
        repo.wf(),
    ensures
        match find_index(repo@.rows, id as int) {
            Some(i) => r matches Ok(c) && c.list@ == repo@.rows[i] && c.editing_name,
            None => r matches Err(e) && e is RecordNotFound,
        },
{
    match repo.get_list(id) {
        Ok(list) => Ok(ListCardView { list, editing_name: true }),
        Err(e) => Err(e),
    }
}

/// The update operation. The submitted name is trimmed; an empty result is
/// rejected before any store call, leaving the store untouched — whatever
/// the store's state. Otherwise the store updates the row: a missing id
/// propagates as a client error; an unchanged name leaves the row and its
/// `updated_at` exactly as they were; a changed name advances `updated_at`
/// to a strictly later instant, or reports a classified failure when the
/// instant counter is exhausted. The descriptor carries the resulting
/// entity, not in edit mode.
pub fn update_list(repo: &mut Repo, id: i64, form: &UpdateListForm) -> (r: Result<
    UpdateOutcome,
    AppError,
>)
    requires
        old(repo).wf(),
    ensures
        final(repo).wf(),
        final(repo)@.next_id == old(repo)@.next_id,
        trim_of(form.name@).len() == 0 ==> (r matches Ok(o) && o is ValidationFailed
            && final(repo)@ == old(repo)@),
        trim_of(form.name@).len() > 0 ==> match find_index(old(repo)@.rows, id as int) {
            None => r matches Err(e) && e is RecordNotFound && final(repo)@ == old(repo)@,
            Some(i) => ({
                let cur = old(repo)@.rows[i];
                &&& cur.name == trim_of(form.name@) ==> (r matches Ok(o) && o matches
                    UpdateOutcome::Updated(c) && c.list@ == cur && !c.editing_name
                    && final(repo)@ == old(repo)@)
                &&& cur.name != trim_of(form.name@) && old(repo)@.clock < i64::MAX ==> (r matches
                    Ok(o) && o matches UpdateOutcome::Updated(c) && c.list@ == (ListModel {
                    id: cur.id,
                    name: trim_of(form.name@),
                    created_at: cur.created_at,
                    updated_at: old(repo)@.clock + 1,
                }) && c.list@.updated_at > cur.updated_at && !c.editing_name
                    && final(repo)@.rows == old(repo)@.rows.update(i, c.list@)
                    && final(repo)@.clock == old(repo)@.clock + 1)
                &&& cur.name != trim_of(form.name@) && old(repo)@.clock == i64::MAX ==> (r matches
                    Err(e) && e is Other && final(repo)@ == old(repo)@)
            }),
        },
{
    let name = trim_str(form.name.as_str());
    if name.as_str().is_empty() {
        return Ok(UpdateOutcome::ValidationFailed);
    }
    let list = match repo.update_list(id, name.as_str()) {
        Ok(l) => l,
        Err(e) => return Err(e),
    };
    Ok(UpdateOutcome::Updated(ListCardView { list, editing_name: false }))
}

/// The delete operation: no validation, no lookup. The store removes the
/// row if one matches, and the terminal state is a no-content success
/// whether or not a row existed.
pub fn delete_list(repo: &mut Repo, id: i64) -> (r: Result<u16, AppError>)
    requires
        old(repo).wf(),
    ensures
        final(repo).wf(),
        r matches Ok(code) && code == 204,
        final(repo)@.next_id == old(repo)@.next_id,
        final(repo)@.clock == old(repo)@.clock,
        match find_index(old(repo)@.rows, id as int) {
            Some(i) => final(repo)@.rows == old(repo)@.rows.remove(i),
            None => final(repo)@.rows == old(repo)@.rows,
        },
        forall|j: int|
            0 <= j < final(repo)@.rows.len() ==> #[trigger] final(repo)@.rows[j].id != id as int,
{
    match repo.delete_list(id) {
        Ok(_) => Ok(204),
        Err(e) => Err(e),
    }
}

} // verus!
