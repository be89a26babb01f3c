pub mod planner;
