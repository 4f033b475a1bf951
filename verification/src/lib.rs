//! A public attestation portal for a fleet of TDX hosts: the data a node reports of its
//! confidential virtual machines, the verdict on each of them, and the pages that show both.
//!
//! - `report`: what a node reports.
//! - `collect`: how a node agent comes by it.
//! - `cert`, `dcap`: the TDX quote inside a certificate, and Intel's verification of it.
//! - `onchain`: the approved measurements on the NEAR chain.
//! - `verify`: the steps from a report to a verdict.
//! - `compose`: the images that a measured app-compose pins.
//! - `page`, `html`, `template`: what the pages show, and how.
//! - `store`: the latest report of each node, and who may push one.
//! - `text`, `hex`, `json`: texts, bytes in hexadecimal, and JSON.
//! - `laws`: what holds of these operations, whatever they are given.

pub mod cert;
pub mod collect;
pub mod compose;
pub mod dcap;
pub mod hex;
pub mod html;
pub mod json;
pub mod laws;
pub mod onchain;
pub mod page;
pub mod report;
pub mod store;
pub mod template;
pub mod text;
pub mod verify;
