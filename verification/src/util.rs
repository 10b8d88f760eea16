pub mod assoc;
pub mod regex;
pub mod set;
