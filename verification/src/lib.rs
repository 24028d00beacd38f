pub mod frame;
pub mod render;
pub mod scene;
pub mod scene_item;
pub mod types;
pub mod names;
pub mod registry;
pub mod text;
pub mod property;
pub mod encoding;
pub mod x264;
pub mod ffmpeg_h264;
pub mod nvenc;
pub mod aac;
pub mod encoder_factory;
pub mod chat;
pub mod twitch;
pub mod events;
pub mod destinations;
pub mod rtmp;
pub mod file_output;
pub mod audio_source;
pub mod capture;
pub mod video;
pub mod profiles;
pub mod settings;
pub mod plugins;
pub mod ui;
pub mod pipeline;
pub mod idmap;
pub mod profile_store;
pub mod blit;
pub mod recording;
pub mod resample;
