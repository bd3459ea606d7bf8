//! Lazy generation of prime numbers by trial division, and prime factorisation.
//!
//! [`PrimeIter`] retains every prime it has produced and tests each odd
//! candidate against them; [`prime_factors`] splits a number into its prime
//! factors. Both are verified against the mathematical definition of
//! primality in [`primality`]. Where the search for a prime could leave the
//! range of a `u64`, the contracts speak of [`LARGEST_PRIME`], which
//! [`largest`] proves to be the last prime in that range.

pub mod factor;
pub mod largest;
pub mod lucas;
pub mod primality;
pub mod prime_iter;

pub use factor::prime_factors;
pub use largest::LARGEST_PRIME;
pub use prime_iter::PrimeIter;
