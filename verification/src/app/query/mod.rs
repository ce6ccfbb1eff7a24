pub mod get_full_url;
