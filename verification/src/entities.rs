pub mod text_elements;
