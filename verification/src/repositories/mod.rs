pub mod i_user_repository;
