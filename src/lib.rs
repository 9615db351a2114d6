pub mod color;
pub mod hits;
pub mod march;
pub mod material;
pub mod objects;
pub mod progress;
pub mod raster;
pub mod shading;

pub use color::Color;
pub use hits::{choose_surface, nearest_hit, occludes, Candidate, Surface};
pub use march::{march, MarchStep};
pub use material::{Material, COEFF_SCALE};
pub use objects::{DummyObject, Object, Origin, Schematic};
pub use progress::{
    ends_portion, line_notifications, portion_amount, progress_lines, render_line, ProgressBar,
    ProgressLine, PORTION_SIZE,
};
pub use raster::{empty_frame, i32_res, is_complete_frame, pixel_offset, raw_pixel};
pub use shading::{
    blend_reflection, light_dir_unless_shadowed, mix_channel, should_reflect,
    trace_ray,
};
