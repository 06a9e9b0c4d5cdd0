//! The web manager's requests: what they carry, how they are answered, and
//! what the command line prints about the answer.

use vstd::prelude::*;
use vstd::string::*;

use crate::config::{
    spec_add_accepts,
    spec_add_items,
    spec_item_exists,
    spec_modify_accepts,
    spec_modify_items,
    spec_remove_items,
};
use crate::controller::LopxyManagerServerController;
use crate::proxy::{spec_flag_enabled, spec_flag_value};
use crate::uri::{opt_view, percent_decode, percent_decoded};

verus! {

/// The form of a request to add a rule. Every field is percent-encoded.
pub struct AddRequest {
    pub resource_url: String,
    pub proxy_resource_url: String,
    pub resource_content_type: String,
}

/// The form of a request to remove a rule. The field is percent-encoded.
pub struct RemoveRequest {
    pub resource_url: String,
}

/// The form of a request to change a rule. Every field is percent-encoded.
pub struct ModifyRequest {
    pub resource_url: String,
    pub proxy_resource_url: String,
    pub resource_content_type: String,
}

pub struct SetProxyEnabledRequest {
    pub enabled: bool,
}

pub struct AddResponse {
    pub result: bool,
}

pub struct RemoveResponse {
    pub result: bool,
}

pub struct ModifyResponse {
    pub result: bool,
}

pub struct SetProxyEnabledResponse {
    pub result: bool,
}

pub struct IsProxyEnabledResponse {
    pub result: bool,
}

/// The three decoded fields of a form, where all three decode.
pub open spec fn spec_decode_fields(url: Seq<char>, target: Seq<char>, content_type: Seq<char>) -> Option<
    (Seq<char>, Seq<char>, Seq<char>),
> {
    match (percent_decoded(url), percent_decoded(target), percent_decoded(content_type)) {
        (Some(url), Some(target), Some(content_type)) => Some((url, target, content_type)),
        _ => None,
    }
}

/// Decodes a percent-encoded form field.
pub fn decode_url_string(urlstr: &str) -> (res: Option<String>)
    ensures
        opt_view(res) == percent_decoded(urlstr@),
{
    percent_decode(urlstr)
}

/// Adds the rule that a form describes. A form with a field that does not
/// decode is refused and changes nothing.
pub fn add_proxy_item<C: LopxyManagerServerController>(controller: &mut C, item: &AddRequest) -> (res:
    AddResponse)
    ensures
        match spec_decode_fields(item.resource_url@, item.proxy_resource_url@, item.resource_content_type@) {
            Some((url, target, content_type)) => {
                &&& res.result == spec_add_accepts(old(controller).manager_view().rules, url, target)
                &&& final(controller).manager_view().rules == spec_add_items(old(controller).manager_view().rules, url, target, content_type)
            },
            None => !res.result && final(controller).manager_view().rules == old(controller).manager_view().rules,
        },
{
    let resource_url = decode_url_string(item.resource_url.as_str());
    let proxy_resource_url = decode_url_string(item.proxy_resource_url.as_str());
    let resource_content_type = decode_url_string(item.resource_content_type.as_str());
    match (resource_url, proxy_resource_url, resource_content_type) {
        (Some(url), Some(target), Some(content_type)) => AddResponse {
            result: controller.add_proxy_item(url.as_str(), target.as_str(), content_type.as_str()),
        },
        _ => AddResponse { result: false },
    }
}

/// Removes the rule that a form names. A form whose field does not decode
/// is refused and changes nothing.
pub fn remove_proxy_item<C: LopxyManagerServerController>(controller: &mut C, item: &RemoveRequest) -> (res:
    RemoveResponse)
    ensures
        match percent_decoded(item.resource_url@) {
            Some(url) => {
                &&& res.result == spec_item_exists(old(controller).manager_view().rules, url)
                &&& final(controller).manager_view().rules == spec_remove_items(old(controller).manager_view().rules, url)
            },
            None => !res.result && final(controller).manager_view().rules == old(controller).manager_view().rules,
        },
{
    match decode_url_string(item.resource_url.as_str()) {
        Some(url) => RemoveResponse { result: controller.remove_proxy_item(url.as_str()) },
        None => RemoveResponse { result: false },
    }
}

/// Changes the rule that a form describes. A form with a field that does
/// not decode is refused and changes nothing.
pub fn modify_proxy_item<C: LopxyManagerServerController>(controller: &mut C, item: &ModifyRequest) -> (res:
    ModifyResponse)
    ensures
        match spec_decode_fields(item.resource_url@, item.proxy_resource_url@, item.resource_content_type@) {
            Some((url, target, content_type)) => {
                &&& res.result == spec_modify_accepts(old(controller).manager_view().rules, url, target)
                &&& final(controller).manager_view().rules == spec_modify_items(
                    old(controller).manager_view().rules,
                    url,
                    target,
                    content_type,
                )
            },
            None => !res.result && final(controller).manager_view().rules == old(controller).manager_view().rules,
        },
{
    let resource_url = decode_url_string(item.resource_url.as_str());
    let proxy_resource_url = decode_url_string(item.proxy_resource_url.as_str());
    let resource_content_type = decode_url_string(item.resource_content_type.as_str());
    match (resource_url, proxy_resource_url, resource_content_type) {
        (Some(url), Some(target), Some(content_type)) => ModifyResponse {
            result: controller.modify_proxy_item(url.as_str(), target.as_str(), content_type.as_str()),
        },
        _ => ModifyResponse { result: false },
    }
}

/// Answers whether the operating system's proxy is in force, from the flag
/// that was read from its settings.
pub fn is_lopxy_proxy_enabled<C: LopxyManagerServerController>(controller: &mut C, proxy_enable: Option<u32>) -> (res:
    IsProxyEnabledResponse)
    ensures
        res.result == spec_flag_enabled(proxy_enable),
        final(controller).manager_view().rules == old(controller).manager_view().rules,
{
    IsProxyEnabledResponse { result: controller.is_system_proxy_enabled(proxy_enable) }
}

/// Answers a request to switch the operating system's proxy: the answer is
/// always a success, and the second part is the flag to store.
pub fn set_lopxy_proxy_enabled<C: LopxyManagerServerController>(
    controller: &mut C,
    item: &SetProxyEnabledRequest,
) -> (res: (SetProxyEnabledResponse, u32))
    ensures
        res.0.result,
        res.1 == spec_flag_value(item.enabled),
        final(controller).manager_view().rules == old(controller).manager_view().rules,
{
    let flag: u32 = controller.set_system_proxy_enabled(item.enabled);
    (SetProxyEnabledResponse { result: true }, flag)
}

/// The body of an answer that carries one result.
pub open spec fn spec_result_json(result: bool) -> Seq<char> {
    if result {
        "{\"result\":true}"@
    } else {
        "{\"result\":false}"@
    }
}

pub fn result_json(result: bool) -> (res: String)
    ensures
        res@ == spec_result_json(result),
{
    if result {
        "{\"result\":true}".to_owned()
    } else {
        "{\"result\":false}".to_owned()
    }
}

/// What the command line prints after an answer: nothing for a success,
/// `failure` for a failure.
pub open spec fn spec_outcome_message(result: bool, failure: Seq<char>) -> Seq<char> {
    if result {
        Seq::<char>::empty()
    } else {
        failure
    }
}

fn outcome_message(result: bool, failure: &str) -> (res: String)
    ensures
        res@ == spec_outcome_message(result, failure@),
{
    if result {
        String::new()
    } else {
        failure.to_owned()
    }
}

pub fn add_message(response: &AddResponse) -> (res: String)
    ensures
        res@ == spec_outcome_message(response.result, "add proxy item failed\r\n"@),
{
    outcome_message(response.result, "add proxy item failed\r\n")
}

pub fn remove_message(response: &RemoveResponse) -> (res: String)
    ensures
        res@ == spec_outcome_message(response.result, "remove proxy item failed\r\n"@),
{
    outcome_message(response.result, "remove proxy item failed\r\n")
}

pub fn modify_message(response: &ModifyResponse) -> (res: String)
    ensures
        res@ == spec_outcome_message(response.result, "modify proxy item failed\r\n"@),
{
    outcome_message(response.result, "modify proxy item failed\r\n")
}

pub fn set_proxy_enabled_message(enabled: bool, response: &SetProxyEnabledResponse) -> (res: String)
    ensures
        res@ == spec_outcome_message(
            response.result,
            if enabled {
                "enable lopxy proxy failed\r\n"@
            } else {
                "disable lopxy proxy failed\r\n"@
            },
        ),
{
    if enabled {
        outcome_message(response.result, "enable lopxy proxy failed\r\n")
    } else {
        outcome_message(response.result, "disable lopxy proxy failed\r\n")
    }
}

} // verus!
