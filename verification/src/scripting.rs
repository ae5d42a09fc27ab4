pub mod lua_bridge;
pub mod scheduler;
