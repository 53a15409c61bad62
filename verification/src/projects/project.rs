use crate::components::component::Component;
use crate::errors::Error;
use vstd::prelude::*;

verus! {

/// A project: an identifier that does not change, and the graph of its components.
/// Nothing here reads the graph; it is carried for the persistence layer, which owns
/// its shape.
#[derive(Clone, Debug, PartialEq, Eq)]
pub struct Project {
    /// Identifier of the project. A stored project has one that is not empty.
    pub id: String,
    /// The components of the project.
    pub components: Vec<Component>,
}

/// How a project goes into the store.
#[derive(Clone, Copy, Debug, PartialEq, Eq, Structural)]
pub enum SaveAction {
    /// The project is new: it is added to the store.
    Insert,
    /// The project takes the place of the stored project with its identifier.
    Replace,
}

impl Project {
    /// What looking a project up in the store comes to: the project, and for a project
    /// that the store does not know the failure to find it.
    pub fn or_not_found(stored: Option<Project>) -> (project: Result<Project, Error>)
        ensures
            project == match stored {
                Some(found) => Ok::<Project, Error>(found),
                None => Err::<Project, Error>(Error::NotFound),
            },
    {
        match stored {
            Some(found) => Ok(found),
            None => Err(Error::NotFound),
        }
    }

    /// Prepares a project for the store. A project without an identifier is new: it is
    /// given the identifier `fresh_id` and is to be inserted. A project with an identifier
    /// is to replace the stored one, as it is.
    pub fn for_saving(self, fresh_id: String) -> (prepared: (Project, SaveAction))
        ensures
            prepared.0.components == self.components,
            self.id@.len() == 0 ==> prepared.0.id == fresh_id && prepared.1 == SaveAction::Insert,
            self.id@.len() != 0 ==> prepared.0.id == self.id && prepared.1 == SaveAction::Replace,
    {
        if self.id.as_str().is_empty() {
            (Project { id: fresh_id, components: self.components }, SaveAction::Insert)
        } else {
            (self, SaveAction::Replace)
        }
    }
}

} // verus!
