//! Backend rules of a note-taking application: the response envelope, the
//! sign-up and sign-in decisions, session claims and their expiry, and the
//! normalisation of loosely typed rows that come back from the data store.

pub mod auth;
pub mod blocks;
pub mod embeddings;
pub mod ordering;
pub mod pages;
pub mod password;
pub mod queries;
pub mod responses;
pub mod rows;
pub mod storage;
pub mod text;
pub mod token;
pub mod update;
