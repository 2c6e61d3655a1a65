//! Gateway routing rules of the open-router decider: configuration parsing,
//! gateway filtering, elimination-score bookkeeping and the small text and
//! key utilities they rest on, with their contracts proved by Verus.
#![allow(non_snake_case)]
#![allow(non_camel_case_types)]

pub mod generics;
pub mod text;
pub mod decider;
pub mod storage;
pub mod feedback;
