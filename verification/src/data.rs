pub mod text_data;
