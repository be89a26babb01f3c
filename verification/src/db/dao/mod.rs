pub mod card_dao;
