//! The verified core of a client for the smash.gg GraphQL API: the bearer
//! token is found among the variables of an environment, and one call of the
//! API is decided step by step, from the request that opens it to the result
//! that closes it. Reading the environment and the exchange over the network
//! are left to the program that uses the library.

pub mod client;
pub mod config;
pub mod error;
