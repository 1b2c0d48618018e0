pub mod seatalk;
