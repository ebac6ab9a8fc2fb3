//! The plugin facade: a matcher plus a plugin identity, scanning one flat
//! mapping and reporting a structured violation on the first match.

use crate::build_error::{is_error_text, PatternCompileError};
use crate::deny_list::{ac_compiles, DenyList};
use crate::deny_list_config::DenyListConfig;
use crate::text::{folded_words, strings_view};
use crate::value::{mapping_has_match, Value};
use vstd::prelude::*;
use vstd::string::StringExecFns;

verus! {

/// A structured violation: why a scan refused the content, and who says so.
/// Created on the first positive match; immutable afterwards.
pub struct PluginViolation {
    pub reason: String,
    pub description: String,
    pub code: String,
    pub details: Option<Vec<(String, Value)>>,
    pub plugin_name: String,
    pub mcp_error_code: Option<i32>,
}

impl PluginViolation {
    /// Bundles the given fields as a violation.
    pub fn new(
        reason: String,
        description: String,
        code: String,
        details: Option<Vec<(String, Value)>>,
        plugin_name: String,
        mcp_error_code: Option<i32>,
    ) -> (r: PluginViolation)
        ensures
            r == (PluginViolation { reason, description, code, details, plugin_name, mcp_error_code }),
    {
        PluginViolation { reason, description, code, details, plugin_name, mcp_error_code }
    }
}

/// What the plugin tells its host after one evaluation: whether to continue,
/// and the violation if there was one.
pub struct PluginResult {
    pub continue_processing: bool,
    pub modified_payload: Option<Vec<(String, Value)>>,
    pub violation: Option<PluginViolation>,
    pub metadata: Option<Vec<(String, Value)>>,
}

impl PluginResult {
    /// Bundles the given fields as a result.
    pub fn new(
        continue_processing: bool,
        modified_payload: Option<Vec<(String, Value)>>,
        violation: Option<PluginViolation>,
        metadata: Option<Vec<(String, Value)>>,
    ) -> (r: PluginResult)
        ensures
            r == (PluginResult { continue_processing, modified_payload, violation, metadata }),
    {
        PluginResult { continue_processing, modified_payload, violation, metadata }
    }
}

/// A deny-list matcher with a plugin identity, evaluating flat mappings for a
/// moderation pipeline.
pub struct DenyListPlugin {
    pub matcher: DenyList,
    pub plugin_name: String,
}

impl DenyListPlugin {
    /// Compiles the configured word list and takes the plugin's name. It
    /// succeeds exactly when `DenyList::new` would on the same words, and
    /// fails with the same error.
    pub fn new(config: DenyListConfig, plugin_name: String) -> (r: Result<
        DenyListPlugin,
        PatternCompileError,
    >)
        ensures
            r is Ok <==> ac_compiles(folded_words(strings_view(config.words@))),
            r is Ok ==> r->Ok_0.matcher@ == strings_view(config.words@),
            r is Ok ==> r->Ok_0.plugin_name@ == plugin_name@,
            r is Err ==> is_error_text(r->Err_0@),
    {
        match DenyList::new(config.words) {
            Ok(matcher) => Ok(DenyListPlugin { matcher, plugin_name }),
            Err(e) => Err(e),
        }
    }

    /// Evaluates one flat mapping before it is processed further: on the
    /// first match the result carries a violation and says "do not continue";
    /// otherwise it says "continue". Keys are never matched; values that are
    /// not strings are skipped.
    pub fn prompt_pre_fetch(&self, args: &Vec<(String, Value)>) -> (r: PluginResult)
        ensures
            r.continue_processing == !mapping_has_match(self.matcher@, args@),
            r.modified_payload is None,
            r.metadata is None,
            mapping_has_match(self.matcher@, args@) ==> r.violation is Some
                && r.violation->0.reason@ == "Denied word found in prompt"@
                && r.violation->0.description@ == "The prompt contains words from the deny list"@
                && r.violation->0.code@ == "DENY_LIST_VIOLATION"@
                && r.violation->0.details is None && r.violation->0.plugin_name@
                == self.plugin_name@ && r.violation->0.mcp_error_code is None,
            !mapping_has_match(self.matcher@, args@) ==> r.violation is None,
    {
        if self.matcher.scan(args) {
            let violation = PluginViolation::new(
                String::from_str("Denied word found in prompt"),
                String::from_str("The prompt contains words from the deny list"),
                String::from_str("DENY_LIST_VIOLATION"),
                None,
                self.plugin_name.clone(),
                None,
            );
            PluginResult::new(false, None, Some(violation), None)
        } else {
            PluginResult::new(true, None, None, None)
        }
    }

    /// Scans one flat mapping and says whether processing may continue, that
    /// is, whether no deny word was found among its string values.
    pub fn scan(&self, args: &Vec<(String, Value)>) -> (r: bool)
        ensures
            r == !mapping_has_match(self.matcher@, args@),
    {
        let found = self.matcher.scan(args);
        !found
    }
}

} // verus!
