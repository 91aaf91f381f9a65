//! Core of the `movie_worker` background-job service: the job registry and
//! its status machine, request validation for the HTTP endpoints, webhook
//! field extraction, job argument planning, the Radarr/Sonarr and API call
//! builders, and the S3 request builders and signers of the storage layer.

pub mod arr;
pub mod client;
pub mod config;
pub mod error;
pub mod handlers;
pub mod jobs;
pub mod state;
pub mod storage;
pub mod text;
