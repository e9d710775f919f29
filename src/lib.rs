pub mod abi;
pub mod call;
pub mod engine;
pub mod guest;
pub mod outcome;
pub mod primes;
pub mod problem;
pub mod staging;
pub mod vm;
