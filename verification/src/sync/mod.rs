pub mod crm;
pub mod directory;
