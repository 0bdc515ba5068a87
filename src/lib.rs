//! Provisioning of the key-value namespace that backs a site's static assets.
//!
//! The library holds the decisions: which title a namespace gets, how a
//! provider's error set is classified, and how a failed create falls back to a
//! lookup. The remote calls themselves are made by the caller: it hands them to
//! [`reconcile::site`] as closures, or runs them itself and hands their outcomes
//! to a [`reconcile::Reconciler`].

pub mod reconcile;
pub mod remote;
pub mod title;
