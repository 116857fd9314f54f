pub mod operation_collection;
