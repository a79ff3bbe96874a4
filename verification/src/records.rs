//! How updates merge into clients and projects.
use vstd::prelude::*;
use crate::models::{Client, Project, UpdateClientInput, UpdateProjectInput};
use crate::ai::opt_view;
use crate::tasks::{or_view, keep_or_replace};

verus! {

/// The editable fields of a client, as bound into its `UPDATE`.
#[derive(Debug, Clone, PartialEq)]
pub struct ClientFields {
    pub name: String,
    pub company: Option<String>,
    pub email: Option<String>,
    pub phone: Option<String>,
    pub notes: Option<String>,
}

/// What the editable fields of a client hold.
pub struct ClientFieldsView {
    pub name: Seq<char>,
    pub company: Option<Seq<char>>,
    pub email: Option<Seq<char>>,
    pub phone: Option<Seq<char>>,
    pub notes: Option<Seq<char>>,
}

/// What an update of a client holds.
pub struct ClientUpdateView {
    pub name: Option<Seq<char>>,
    pub company: Option<Seq<char>>,
    pub email: Option<Seq<char>>,
    pub phone: Option<Seq<char>>,
    pub notes: Option<Seq<char>>,
}

impl View for ClientFields {
    type V = ClientFieldsView;

    open spec fn view(&self) -> ClientFieldsView {
        ClientFieldsView {
            name: self.name@,
            company: opt_view(self.company),
            email: opt_view(self.email),
            phone: opt_view(self.phone),
            notes: opt_view(self.notes),
        }
    }
}

/// The editable fields of a stored client.
pub open spec fn client_fields(c: Client) -> ClientFieldsView {
    ClientFieldsView {
        name: c.name@,
        company: opt_view(c.company),
        email: opt_view(c.email),
        phone: opt_view(c.phone),
        notes: opt_view(c.notes),
    }
}

/// What an update input of a client holds.
pub open spec fn client_update_view(u: UpdateClientInput) -> ClientUpdateView {
    ClientUpdateView {
        name: opt_view(u.name),
        company: opt_view(u.company),
        email: opt_view(u.email),
        phone: opt_view(u.phone),
        notes: opt_view(u.notes),
    }
}

/// The fields of a client after an update: given fields replace, the others are kept.
pub open spec fn merge_client(e: ClientFieldsView, u: ClientUpdateView) -> ClientFieldsView {
    ClientFieldsView {
        name: match u.name {
            Some(n) => n,
            None => e.name,
        },
        company: or_view(u.company, e.company),
        email: or_view(u.email, e.email),
        phone: or_view(u.phone, e.phone),
        notes: or_view(u.notes, e.notes),
    }
}

/// The fields an update gives the client `existing`.
pub fn merge_client_update(existing: &Client, input: &UpdateClientInput) -> (f: ClientFields)
    ensures
        f@ == merge_client(client_fields(*existing), client_update_view(*input)),
{
    ClientFields {
        name: match &input.name {
            Some(n) => n.clone(),
            None => existing.name.clone(),
        },
        company: keep_or_replace(&input.company, &existing.company),
        email: keep_or_replace(&input.email, &existing.email),
        phone: keep_or_replace(&input.phone, &existing.phone),
        notes: keep_or_replace(&input.notes, &existing.notes),
    }
}

/// An update of a client that gives nothing keeps it, and applying an update twice gives
/// what applying it once gives.
pub proof fn lemma_client_update(e: ClientFieldsView, u: ClientUpdateView)
    ensures
        merge_client(
            e,
            ClientUpdateView { name: None, company: None, email: None, phone: None, notes: None },
        ) == e,
        merge_client(merge_client(e, u), u) == merge_client(e, u),
{
}

/// Each field a client update gives is the field's new value; each field it leaves out
/// keeps its stored value.
pub proof fn lemma_client_update_fields(e: ClientFieldsView, u: ClientUpdateView)
    ensures
        u.name matches Some(n) ==> merge_client(e, u).name == n,
        u.name is None ==> merge_client(e, u).name == e.name,
        u.company matches Some(c) ==> merge_client(e, u).company == Some(c),
        u.company is None ==> merge_client(e, u).company == e.company,
        u.email matches Some(m) ==> merge_client(e, u).email == Some(m),
        u.email is None ==> merge_client(e, u).email == e.email,
        u.phone matches Some(p) ==> merge_client(e, u).phone == Some(p),
        u.phone is None ==> merge_client(e, u).phone == e.phone,
        u.notes matches Some(t) ==> merge_client(e, u).notes == Some(t),
        u.notes is None ==> merge_client(e, u).notes == e.notes,
{
}

/// The editable fields of a project, as bound into its `UPDATE`.
#[derive(Debug, Clone, PartialEq)]
pub struct ProjectFields {
    pub name: String,
    pub description: Option<String>,
    pub client_id: Option<String>,
    pub color: Option<String>,
    pub status: String,
}

/// What the editable fields of a project hold.
pub struct ProjectFieldsView {
    pub name: Seq<char>,
    pub description: Option<Seq<char>>,
    pub client_id: Option<Seq<char>>,
    pub color: Option<Seq<char>>,
    pub status: Seq<char>,
}

/// What an update of a project holds.
pub struct ProjectUpdateView {
    pub name: Option<Seq<char>>,
    pub description: Option<Seq<char>>,
    pub client_id: Option<Seq<char>>,
    pub color: Option<Seq<char>>,
    pub status: Option<Seq<char>>,
}

impl View for ProjectFields {
    type V = ProjectFieldsView;

    open spec fn view(&self) -> ProjectFieldsView {
        ProjectFieldsView {
            name: self.name@,
            description: opt_view(self.description),
            client_id: opt_view(self.client_id),
            color: opt_view(self.color),
            status: self.status@,
        }
    }
}

/// The editable fields of a stored project.
pub open spec fn project_fields(p: Project) -> ProjectFieldsView {
    ProjectFieldsView {
        name: p.name@,
        description: opt_view(p.description),
        client_id: opt_view(p.client_id),
        color: opt_view(p.color),
        status: p.status@,
    }
}

/// What an update input of a project holds.
pub open spec fn project_update_view(u: UpdateProjectInput) -> ProjectUpdateView {
    ProjectUpdateView {
        name: opt_view(u.name),
        description: opt_view(u.description),
        client_id: opt_view(u.client_id),
        color: opt_view(u.color),
        status: opt_view(u.status),
    }
}

/// The fields of a project after an update: given fields replace, the others are kept.
pub open spec fn merge_project(e: ProjectFieldsView, u: ProjectUpdateView) -> ProjectFieldsView {
    ProjectFieldsView {
        name: match u.name {
            Some(n) => n,
            None => e.name,
        },
        description: or_view(u.description, e.description),
        client_id: or_view(u.client_id, e.client_id),
        color: or_view(u.color, e.color),
        status: match u.status {
            Some(s) => s,
            None => e.status,
        },
    }
}

/// The fields an update gives the project `existing`.
pub fn merge_project_update(existing: &Project, input: &UpdateProjectInput) -> (f: ProjectFields)
    ensures
        f@ == merge_project(project_fields(*existing), project_update_view(*input)),
{
    ProjectFields {
        name: match &input.name {
            Some(n) => n.clone(),
            None => existing.name.clone(),
        },
        description: keep_or_replace(&input.description, &existing.description),
        client_id: keep_or_replace(&input.client_id, &existing.client_id),
        color: keep_or_replace(&input.color, &existing.color),
        status: match &input.status {
            Some(s) => s.clone(),
            None => existing.status.clone(),
        },
    }
}

/// An update of a project that gives nothing keeps it, and applying an update twice gives
/// what applying it once gives.
pub proof fn lemma_project_update(e: ProjectFieldsView, u: ProjectUpdateView)
    ensures
        merge_project(
            e,
            ProjectUpdateView { name: None, description: None, client_id: None, color: None, status: None },
        ) == e,
        merge_project(merge_project(e, u), u) == merge_project(e, u),
{
}

/// Each field a project update gives is the field's new value; each field it leaves out
/// keeps its stored value.
pub proof fn lemma_project_update_fields(e: ProjectFieldsView, u: ProjectUpdateView)
    ensures
        u.name matches Some(n) ==> merge_project(e, u).name == n,
        u.name is None ==> merge_project(e, u).name == e.name,
        u.description matches Some(d) ==> merge_project(e, u).description == Some(d),
        u.description is None ==> merge_project(e, u).description == e.description,
        u.client_id matches Some(c) ==> merge_project(e, u).client_id == Some(c),
        u.client_id is None ==> merge_project(e, u).client_id == e.client_id,
        u.color matches Some(c) ==> merge_project(e, u).color == Some(c),
        u.color is None ==> merge_project(e, u).color == e.color,
        u.status matches Some(t) ==> merge_project(e, u).status == t,
        u.status is None ==> merge_project(e, u).status == e.status,
{
}

} // verus!
