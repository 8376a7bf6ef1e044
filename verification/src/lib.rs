pub mod bmh;
pub mod msg_filter;
pub mod mh;
pub mod render_state;
pub mod wnd_input;
pub mod input_state;
pub mod pointer_chain;
pub mod region;
pub mod dx12_state;
pub mod vulkan_setup;
pub mod util;
pub mod texture;
pub mod draw_plan;
pub mod gpu_buffers;
pub mod controller;
pub mod process_name;
pub mod compositor;
