pub mod paths;
mod sys;
