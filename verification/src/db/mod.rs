pub mod dao;
