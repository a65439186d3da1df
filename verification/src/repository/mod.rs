pub mod vm;
