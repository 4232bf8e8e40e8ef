pub mod into_iterated_result;
