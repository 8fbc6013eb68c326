//! Template-acquisition and safe-write core of a project-scaffolding tool.
//!
//! The library obtains a catalog of named templates — either `.gitignore`
//! patterns fetched from a remote endpoint through a seven-day local cache,
//! or the compiled-in table of license texts — resolves a selection against
//! it, and decides what the output file's new contents are under a write
//! policy that never silently clobbers an existing file. All filesystem and
//! network traffic is left to the surrounding application: the functions
//! here take the observed state (cache age, raw payload bytes, the target
//! file's current contents) as plain values and return the decision.

pub mod cache;
pub mod catalog;
pub mod gitignore;
pub mod license;
pub mod writer;
