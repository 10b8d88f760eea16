pub mod savings_plan;
