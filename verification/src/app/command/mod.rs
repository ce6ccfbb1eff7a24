pub mod create_short_url;
