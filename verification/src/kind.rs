//! The three kinds of entity that a migration moves.

use vstd::prelude::*;

verus! {

/// The kind of an entity.
#[derive(Debug, Clone, Copy, PartialEq, Eq, Structural)]
pub enum Kind {
    Folder,
    Dashboard,
    Datasource,
}

} // verus!
