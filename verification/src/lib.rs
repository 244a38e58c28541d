//! Core logic of a terminal merge-queue manager for GitHub pull requests:
//! the pull-request model and its status rules, the filters and state
//! machine of the interactive list, the decoding of GitHub GraphQL replies,
//! and the text shown by the panels.

pub mod text;
pub mod time;
pub mod models;
pub mod sort;
pub mod rest;
pub mod json;
pub mod graphql;
pub mod config;
pub mod event;
pub mod app;
pub mod view;
pub mod diff;
