//! The node-discovery metadata document, as plain data.

use vstd::prelude::*;

verus! {

#[derive(Clone, Debug, Default, PartialEq)]
pub struct NodeInfo {
    pub version: Option<String>,
    pub software: Option<NodeInfoSoftware>,
    pub protocols: Option<Vec<String>>,
    pub usage: Option<NodeInfoUsage>,
    pub open_registrations: Option<bool>,
}

#[derive(Clone, Debug, Default, PartialEq)]
pub struct NodeInfoSoftware {
    pub name: Option<String>,
    pub version: Option<String>,
}

#[derive(Clone, Debug, Default, PartialEq)]
pub struct NodeInfoUsage {
    pub users: Option<NodeInfoUsers>,
    pub local_posts: Option<i64>,
    pub local_comments: Option<i64>,
}

#[derive(Clone, Debug, Default, PartialEq)]
pub struct NodeInfoUsers {
    pub total: Option<i64>,
    pub active_halfyear: Option<i64>,
    pub active_month: Option<i64>,
}

} // verus!
