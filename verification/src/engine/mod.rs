pub mod object;
