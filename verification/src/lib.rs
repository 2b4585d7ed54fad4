//! A minimal real-time rendering engine skeleton.
//!
//! The crate owns a GPU context with a swapchain-backed output surface, a
//! registry of render pipelines bound to vertex/index/texture/camera
//! resources, and a scene lifecycle manager that decides which
//! application-defined scene is active and drives its
//! init/input/update/draw/cleanup cycle each frame.
//!
//! Windowing, input-event delivery, file loading and the floating-point
//! camera mathematics live with the embedding application; this crate works
//! on the plain values they hand it.

pub mod camera;
pub mod config;
pub mod engine;
pub mod genesis;
pub mod gpu;
pub mod graphics;
pub mod input;
pub mod pipeline;
pub mod scene;
pub mod scene_manager;
pub mod texture;
