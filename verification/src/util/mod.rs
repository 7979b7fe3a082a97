pub mod param_handler;
