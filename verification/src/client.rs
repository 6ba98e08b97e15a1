pub mod reqwest;
