//! A self-scaling HTTP front door: a request counter decides when to
//! provision a copy of the backend executable on a fresh port, and every
//! request is answered with a temporary redirect.

mod error;
mod ports;
mod provision;
mod router;
mod setup;
mod text;

pub use error::ServiceError;
pub use ports::{get_free_port, port_from};
pub use provision::{
    address_of, copy_file_name, copy_name, destination, destination_for, extension_of_name,
    file_name_of, instance_address, is_alphanumeric, is_token, last_dot, launch_plan,
    is_plain_name, lemma_copy_name_plain, lemma_distinct_tokens_distinct_destinations,
    lemma_distinct_tokens_distinct_names, no_separator, parent_of, path_extension, path_stem, plan_copy,
    plans_launch, prepare_launch, random_token, stem_of_name, with_file_name_of, CopyPlan,
    LaunchPlan, TOKEN_LEN,
};
pub use router::{
    decides, lemma_once_provisions_at_most_once, lemma_run_keeps_policy,
    lemma_tickets_consecutive, lemma_tickets_one_to_n, outcome_view, request_count, run, tickets,
    Action, Decision, Reply, RouterEvent, RouterState, RouterView, ScalePolicy,
    DEFAULT_THRESHOLD,
};
pub use setup::{
    after_first_attempt, listen_address, listen_address_of, plan_setup, resolve_port,
    SetupAttempt, SetupPlan,
};
pub use text::{decimal, decimal_string, digit_char};
