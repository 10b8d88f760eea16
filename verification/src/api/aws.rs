pub mod ec2;
pub mod elasticache;
pub mod price_bulk;
pub mod price_bulk_types;
pub mod types;
