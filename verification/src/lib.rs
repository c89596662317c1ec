//! Configuration, data-layer error handling and shared entities of a small
//! todo web application, with their contracts proved by Verus.
use vstd::prelude::*;

pub mod config;
pub mod db;
pub mod entities;
pub mod text;

verus! {

} // verus!
