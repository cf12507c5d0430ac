use vstd::prelude::*;

use crate::layers::check_validation_layers_support;
use crate::layers::spec_validation_layers;
use crate::layers::validation_layers;
use crate::layers::validation_layers_supported;
use crate::version::make_api_version;
use crate::version::spec_api_version;
use crate::version::API_VERSION_1_3;

verus! {

/// Everything instance creation decides before calling into the graphics
/// runtime: the packed version words and the layer names to enable.
pub struct InstanceConfig {
    pub application_version: u32,
    pub engine_version: u32,
    pub api_version: u32,
    pub enabled_layers: Vec<String>,
}

/// The layer names an instance is created with: the requested validation
/// layers when validation is enabled, and none otherwise.
pub open spec fn enabled_layers_ok(names: Seq<String>, enable_validation: bool) -> bool {
    if enable_validation {
        &&& names.len() == spec_validation_layers().len()
        &&& forall|i: int| 0 <= i < names.len() ==> names[i]@ == spec_validation_layers()[i]
    } else {
        names.len() == 0
    }
}

/// Decide the instance parameters from the advertised layer names. Fails
/// exactly when validation is enabled but some requested validation layer is
/// not among `available_layers`; otherwise the application and engine are
/// reported at version 0.1.0 against API version 1.3.
pub fn plan_instance(enable_validation: bool, available_layers: &Vec<String>) -> (r: Option<
    InstanceConfig,
>)
    ensures
        r is Some <==> (enable_validation ==> validation_layers_supported(available_layers@)),
        r matches Some(cfg) ==> {
            &&& cfg.application_version == spec_api_version(0, 0, 1, 0)
            &&& cfg.engine_version == spec_api_version(0, 0, 1, 0)
            &&& cfg.api_version == API_VERSION_1_3
            &&& enabled_layers_ok(cfg.enabled_layers@, enable_validation)
        },
{
    if enable_validation && !check_validation_layers_support(available_layers) {
        return None;
    }

    let enabled_layers = if enable_validation {
        validation_layers()
    } else {
        Vec::new()
    };

    let application_version = make_api_version(0, 0, 1, 0);
    Some(
        InstanceConfig {
            application_version,
            engine_version: application_version,
            api_version: API_VERSION_1_3,
            enabled_layers,
        },
    )
}

} // verus!
