//! Client configuration and request construction for the four resource
//! operations.
//!
//! The transport itself (sending the request, awaiting the response) is the
//! caller's: everything here computes plain values — URLs, the auth header,
//! query parameters — that the transport sends as they are.

use vstd::prelude::*;
use vstd::string::*;

use crate::dates::Date;
use crate::text::{dec_str, join_url, joined_url, u64_to_string};

verus! {

/// Static configuration for talking to the service: supplied at
/// construction, never changed afterwards.
#[derive(Debug, Clone)]
pub struct Client {
    pub api_key: String,
    pub base_url: String,
    pub max_retry: usize,
    pub timeout_secs: u64,
}

impl Client {
    /// A client for the service at `base_url` (trailing slash tolerated),
    /// authenticating with `api_key`, making at most `max_retry` attempts
    /// per call, each bounded by `timeout_secs`.
    pub fn new(api_key: String, base_url: String, max_retry: usize, timeout_secs: u64) -> (c:
        Client)
        ensures
            c.api_key == api_key,
            c.base_url == base_url,
            c.max_retry == max_retry,
            c.timeout_secs == timeout_secs,
    {
        Client { api_key, base_url, max_retry, timeout_secs }
    }

    /// The bearer-auth header sent on every call.
    pub fn auth_header(&self) -> (h: (String, String))
        ensures
            h.0@ == "Authorization"@,
            h.1@ == "Bearer "@ + self.api_key@,
    {
        let mut value = String::new();
        value.append("Bearer ");
        value.append(self.api_key.as_str());
        let name = String::new().concat("Authorization");
        proof {
            assert(name@ =~= "Authorization"@);
            assert(value@ =~= "Bearer "@ + self.api_key@);
        }
        (name, value)
    }

    /// The URL debtors are created at.
    pub fn debtors_url(&self) -> (r: String)
        ensures
            r@ == joined_url(self.base_url@, seq!["debtors"@]),
    {
        let paths: Vec<String> = vec!["debtors".to_owned()];
        let r = join_url(self.base_url.as_str(), &paths);
        proof {
            assert(paths.deep_view() =~= seq!["debtors"@]);
        }
        r
    }

    /// The URL debts are created at.
    pub fn debts_url(&self) -> (r: String)
        ensures
            r@ == joined_url(self.base_url@, seq!["debts"@]),
    {
        let paths: Vec<String> = vec!["debts".to_owned()];
        let r = join_url(self.base_url.as_str(), &paths);
        proof {
            assert(paths.deep_view() =~= seq!["debts"@]);
        }
        r
    }

    /// The URL debt statuses are updated at.
    pub fn debt_statuses_url(&self) -> (r: String)
        ensures
            r@ == joined_url(self.base_url@, seq!["debt_statuses"@]),
    {
        let paths: Vec<String> = vec!["debt_statuses".to_owned()];
        let r = join_url(self.base_url.as_str(), &paths);
        proof {
            assert(paths.deep_view() =~= seq!["debt_statuses"@]);
        }
        r
    }

    /// The URL the reminds of one remind group are listed at.
    pub fn reminds_url(&self, remind_group_id: u64) -> (r: String)
        ensures
            r@ == joined_url(
                self.base_url@,
                seq!["remind_groups"@, dec_str(remind_group_id as nat), "reminds"@],
            ),
    {
        let paths: Vec<String> = vec![
            "remind_groups".to_owned(),
            u64_to_string(remind_group_id),
            "reminds".to_owned(),
        ];
        let r = join_url(self.base_url.as_str(), &paths);
        proof {
            assert(paths.deep_view() =~= seq![
                "remind_groups"@,
                dec_str(remind_group_id as nat),
                "reminds"@,
            ]);
        }
        r
    }

    /// The query parameters of the list-reminds call: the date asked for,
    /// and — whatever that date is — the fixed flag that disables the
    /// active/inactive filter on the remind group.
    pub fn reminds_query(remind_at: &Date) -> (q: Vec<(String, String)>)
        requires
            remind_at.wf(),
        ensures
            q.deep_view() =~= seq![
                ("remind_at"@, remind_at.iso_spec()),
                ("ignore_remind_group_status"@, "true"@),
            ],
    {
        let date = remind_at.format_iso();
        let mut q: Vec<(String, String)> = Vec::new();
        q.push(("remind_at".to_owned(), date));
        q.push(("ignore_remind_group_status".to_owned(), "true".to_owned()));
        q
    }
}

} // verus!
