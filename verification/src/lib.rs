//! Verified core of the intent API service: webhook outbox state machine,
//! webhook signing and delivery planning, request-handling decisions and
//! response shaping.

pub mod text;
pub mod webhook_hmac;
pub mod clock;
pub mod ids;
pub mod json;
pub mod webhook_outbox_repo;
pub mod outbox_laws;
pub mod webhook_delivery;
pub mod webhook_dispatcher;
pub mod webhook_outbox_worker;
pub mod webhook_outbox_dlq;
pub mod trace_context;
pub mod handler_common;
pub mod rebase_plan;
pub mod rebase_apply;
pub mod trigger_reapproval;
pub mod replay;
pub mod simulation;
pub mod rebase_preview;
pub mod jwt_auth;
pub mod validation;
pub mod types;
pub mod api_types;
pub mod compensation_view;
