pub mod effects;
pub mod governance;
pub mod errors;
pub mod key;
pub mod pricing;
pub mod mint_guard;
pub mod regions;
pub mod region_proposals;
pub mod region_seats;
pub mod region_removal;
pub mod education;
pub mod modules;
pub mod bookings;
pub mod scoring;
pub mod proposals;
pub mod laws;
