pub mod aws;
