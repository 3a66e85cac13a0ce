//! A generic handle type that unifies three pointer shapes — plain values,
//! variable-length sequences, and behavior objects invoked through a dispatch
//! table — behind one address-plus-metadata value, tagged at the type level
//! with the kind of access (shared or unique) the holder has to the pointee.
//!
//! The handle never owns what it points at: it records an address into a
//! [`store::Store`] together with the metadata needed to rebuild a full
//! reference later, and every dereference is checked against that store.

pub mod access;
pub mod pointee;
pub mod pointer;
pub mod store;
pub mod trait_obj;
