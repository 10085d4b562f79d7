//! Audits an organization's repositories for security-relevant access grants.
//!
//! The library drains a paged repository listing into one ordered sequence,
//! then, from per-repository enrichment results (deploy keys and direct
//! collaborators), assembles two reports: one listing deploy keys, one listing
//! collaborators. Repositories with nothing to report are omitted; a
//! per-repository fetch failure is recorded in the reports without disturbing
//! the other repositories.

pub mod audit;
pub mod codec;
pub mod pager;
pub mod records;
pub mod render;
pub mod report;

pub use records::Attr;
pub use records::Key;
pub use records::Permissions;
pub use records::RepoCollaborator;
pub use records::Repository;
