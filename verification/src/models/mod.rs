pub mod devents;
