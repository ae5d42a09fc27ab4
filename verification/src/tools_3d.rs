pub mod smart_camera;
pub mod tween_service;
pub mod utils;
