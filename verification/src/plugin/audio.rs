pub mod csd;
