pub mod nginx;
