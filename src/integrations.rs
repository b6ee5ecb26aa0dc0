use vstd::prelude::*;

verus! {

/// The settings of a new integration, by kind of sink.
#[derive(Clone, Debug, PartialEq, Eq)]
pub enum CreateIntegrationData {
    OpsGenie(CreateOpsGenieIntegrationData),
    Slack(CreateSlackIntegrationData),
}

#[derive(Clone, Debug, PartialEq, Eq)]
pub struct CreateOpsGenieIntegrationData {
    /// API key used with the Ops Genie integration API.
    pub api_key: String,
}

#[derive(Clone, Debug, PartialEq, Eq)]
pub struct CreateSlackIntegrationData {
    /// Slack channel to send messages to.
    pub channel_id: String,
    /// Integration source.
    pub source: Option<String>,
    /// API token for the Slack bot.
    pub token: String,
}

/// The settings of an integration to change; absent ones stay as they are.
#[derive(Clone, Debug, PartialEq, Eq)]
pub struct UpdateIntegrationData {
    pub api_key: Option<String>,
    pub channel_id: Option<String>,
    pub token: Option<String>,
}

} // verus!
