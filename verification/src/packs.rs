//! Typed feature wrappers: each well-known feature gets a type that owns
//! one option and the parameter initializations its scored properties
//! depend on, with accessors for the values printing code reads.

use vstd::prelude::*;
use crate::qname::{QName, QNameV, NS_PSK};
use crate::caps::{default_params_for_spec, options_for_spec, PrintCapabilities};
use crate::lookup::{
    find_prop_spec, find_scored_property, find_scored_spec, sps_deps_spec, value_with_spec,
    find_property,
};
use crate::media::MediaSizeTuple;
use crate::predefined::{
    duplex_spec, media_name_spec, orientation_spec, output_color_spec, PredefinedDuplexType,
    PredefinedMediaName, PredefinedPageOrientation, PredefinedPageOutputColor,
};
use crate::schema::{
    views_of, ParameterInit, ParameterInitV, PrintFeature, PrintFeatureOption,
    PrintFeatureOptionV, PrintFeatureV, PrintTicketDocument, PrintTicketDocumentV, PropertyV,
    PropertyValue, PropertyValueV,
};
use crate::ticket::PrintTicket;
use crate::xmlio::emit_of;
use crate::ser_spec::ser_ticket;

verus! {

broadcast use vstd::std_specs::vec::axiom_vec_index_decreases, crate::schema::group_schema_views;

/// A name in the Print Schema Keywords namespace with the conventional
/// prefix.
pub open spec fn psk_name(local: Seq<char>) -> QNameV {
    QNameV { local_name: local, namespace: Some(NS_PSK@), prefix: Some("psk"@) }
}

/// The display name of an option: the string value of its `DisplayName`
/// property in the keywords namespace, if present.
pub open spec fn display_name_spec(o: PrintFeatureOptionV) -> Option<Seq<char>> {
    match find_prop_spec(o.properties, "DisplayName"@, Some(NS_PSK@)) {
        Some(p) => match p.value {
            Some(PropertyValueV::String(s)) => Some(s),
            _ => None,
        },
        None => None,
    }
}

/// The integer a named scored property of an option resolves to under the
/// given parameters; zero when the scored property is absent or resolves
/// to no integer, since absent optional axes are legal.
pub open spec fn scored_int_spec(
    o: PrintFeatureOptionV,
    local: Seq<char>,
    params: Seq<ParameterInitV>,
) -> int {
    match find_scored_spec(o.scored_properties, local, Some(NS_PSK@)) {
        Some(sp) => match value_with_spec(sp, params) {
            Some(PropertyValueV::Integer(v)) => v,
            _ => 0,
        },
        None => 0,
    }
}

/// The value of an integer reinterpreted as the unsigned type of the same
/// width, as the schema's dimension fields are read.
pub open spec fn wrap_u32(i: int) -> int {
    if i >= 0 {
        i
    } else {
        i + 0x1_0000_0000
    }
}

/// The display name of an option.
fn display_name_of<'a>(o: &'a PrintFeatureOption) -> (r: Option<&'a str>)
    ensures
        match r {
            Option::Some(s) => display_name_spec(o@) == Some(s@),
            Option::None => display_name_spec(o@) is None,
        },
{
    match find_property(&o.properties, "DisplayName", Some(NS_PSK)) {
        Option::Some(p) => {
            match &p.value {
                Option::Some(v) => v.string(),
                Option::None => None,
            }
        },
        Option::None => None,
    }
}

/// The integer a named scored property resolves to, zero when absent.
fn scored_int(o: &PrintFeatureOption, local: &str, params: &[ParameterInit]) -> (r: i32)
    ensures
        r as int == scored_int_spec(o@, local@, views_of(params@)),
{
    match find_scored_property(&o.scored_properties, local, Some(NS_PSK)) {
        Option::Some(sp) => {
            match sp.value_with(params) {
                Option::Some(v) => {
                    match v.integer() {
                        Option::Some(n) => n,
                        Option::None => 0,
                    }
                },
                Option::None => 0,
            }
        },
        Option::None => 0,
    }
}

/// Reinterpret an integer as unsigned, as the schema's dimension fields
/// are read.
fn to_u32(v: i32) -> (r: u32)
    ensures
        r as int == wrap_u32(v as int),
{
    let w: i64 = v as i64;
    if w < 0 {
        (w + 0x1_0000_0000) as u32
    } else {
        w as u32
    }
}

/// The view of the single-feature ticket document that embeds one option
/// and its parameters under the given feature name.
pub open spec fn single_feature_doc(
    fname: QNameV,
    option: PrintFeatureOptionV,
    params: Seq<ParameterInitV>,
) -> PrintTicketDocumentV {
    PrintTicketDocumentV {
        properties: Seq::<PropertyV>::empty(),
        parameter_inits: params,
        features: seq![
            PrintFeatureV {
                name: fname,
                properties: Seq::<PropertyV>::empty(),
                options: seq![option],
                features: Seq::<PrintFeatureV>::empty(),
            },
        ],
    }
}

/// Wrap an option and its parameters into a single-feature ticket
/// document, for the external merge step.
fn make_single_feature_doc(
    fname: QName,
    option: PrintFeatureOption,
    params: Vec<ParameterInit>,
) -> (r: PrintTicketDocument)
    ensures
        r@ == single_feature_doc(fname@, option@, views_of(params@)),
{
    let ghost ov = option@;
    let ghost fv = fname@;
    let mut options: Vec<PrintFeatureOption> = Vec::new();
    options.push(option);
    let feat = PrintFeature {
        name: fname,
        properties: Vec::new(),
        options,
        features: Vec::new(),
    };
    proof {
        assert(views_of(feat.options@) =~= seq![ov]);
        assert(views_of(feat.properties@) =~= Seq::<PropertyV>::empty());
        assert(views_of(feat.features@) =~= Seq::<PrintFeatureV>::empty());
        assert(feat@ =~~= (PrintFeatureV {
            name: fv,
            properties: Seq::<PropertyV>::empty(),
            options: seq![ov],
            features: Seq::<PrintFeatureV>::empty(),
        }));
    }
    let mut features: Vec<PrintFeature> = Vec::new();
    features.push(feat);
    let r = PrintTicketDocument {
        properties: Vec::new(),
        parameter_inits: params,
        features,
    };
    proof {
        assert(views_of(r.features@) =~= seq![
            PrintFeatureV {
                name: fv,
                properties: Seq::<PropertyV>::empty(),
                options: seq![ov],
                features: Seq::<PrintFeatureV>::empty(),
            },
        ]);
        assert(views_of(r.properties@) =~= Seq::<PropertyV>::empty());
        assert(r@ =~~= single_feature_doc(fv, ov, views_of(params@)));
    }
    r
}

/// A page media size choice: one option of the `PageMediaSize` feature.
pub struct PageMediaSize {
    /// The option of the feature.
    pub option: PrintFeatureOption,
    /// The parameter initializations the option depends on.
    pub parameters: Vec<ParameterInit>,
}

impl PageMediaSize {
    /// Wrap an option and its parameters.
    pub fn new(option: PrintFeatureOption, parameters: Vec<ParameterInit>) -> (r: Self)
        ensures
            r.option@ == option@,
            views_of(r.parameters@) == views_of(parameters@),
    {
        PageMediaSize { option, parameters }
    }

    /// The qualified name of the feature this wrapper reads.
    pub fn feature_name() -> (r: QName)
        ensures
            r@ == psk_name("PageMediaSize"@),
    {
        QName::qualified("PageMediaSize", NS_PSK, Some("psk"))
    }

    /// One wrapper per option of the feature, each carrying the default
    /// values of the parameters its scored properties reference.
    pub fn list(capabilities: &PrintCapabilities) -> (r: Vec<Self>)
        ensures
            r@.len() == options_for_spec(
                views_of(capabilities.document.features@),
                psk_name("PageMediaSize"@),
            ).len(),
            forall|j: int| 0 <= j < r@.len() ==> (#[trigger] r@[j]).option@ == options_for_spec(
                views_of(capabilities.document.features@),
                psk_name("PageMediaSize"@),
            )[j] && views_of(r@[j].parameters@) == default_params_for_spec(
                views_of(capabilities.document.parameter_defs@),
                sps_deps_spec(
                    options_for_spec(
                        views_of(capabilities.document.features@),
                        psk_name("PageMediaSize"@),
                    )[j].scored_properties,
                ),
            ),
    {
        let fname = Self::feature_name();
        let opts = capabilities.options_for_feature(&fname);
        let ghost ov = views_of(opts@);
        let ghost fv = views_of(capabilities.document.features@);
        let ghost dv = views_of(capabilities.document.parameter_defs@);
        let mut out: Vec<Self> = Vec::new();
        let mut j: usize = 0;
        while j < opts.len()
            invariant
                0 <= j <= opts.len(),
                out@.len() == j,
                ov == views_of(opts@),
                ov == options_for_spec(fv, psk_name("PageMediaSize"@)),
                fv == views_of(capabilities.document.features@),
                dv == views_of(capabilities.document.parameter_defs@),
                forall|k: int| 0 <= k < j ==> (#[trigger] out@[k]).option@ == ov[k] && views_of(
                    out@[k].parameters@,
                ) == default_params_for_spec(dv, sps_deps_spec(ov[k].scored_properties)),
            decreases opts.len() - j,
        {
            let deps = opts[j].parameters_dependent();
            let params = capabilities.default_parameters_for(deps.as_slice());
            out.push(PageMediaSize { option: opts[j].clone(), parameters: params });
            j = j + 1;
        }
        out
    }

    /// The display name of the option, if it carries one.
    pub fn display_name(&self) -> (r: Option<&str>)
        ensures
            match r {
                Option::Some(s) => display_name_spec(self.option@) == Some(s@),
                Option::None => display_name_spec(self.option@) is None,
            },
    {
        display_name_of(&self.option)
    }

    /// Wrap the option and its parameters into a single-feature ticket,
    /// for submission to the external merge step.
    pub fn to_print_ticket(self) -> (r: PrintTicket)
        ensures
            r@ == emit_of(
                ser_ticket(
                    single_feature_doc(
                        psk_name("PageMediaSize"@),
                        self.option@,
                        views_of(self.parameters@),
                    ),
                ),
            ),
    {
        let d = make_single_feature_doc(Self::feature_name(), self.option, self.parameters);
        PrintTicket::from_document(&d)
    }

    /// The media size the option's scored properties give, in microns;
    /// an absent width or height reads as zero.
    pub fn size(&self) -> (r: MediaSizeTuple)
        ensures
            r.w() as int == wrap_u32(
                scored_int_spec(self.option@, "MediaSizeWidth"@, views_of(self.parameters@)),
            ),
            r.h() as int == wrap_u32(
                scored_int_spec(self.option@, "MediaSizeHeight"@, views_of(self.parameters@)),
            ),
    {
        let w = scored_int(&self.option, "MediaSizeWidth", self.parameters.as_slice());
        let h = scored_int(&self.option, "MediaSizeHeight", self.parameters.as_slice());
        MediaSizeTuple::micron(to_u32(w), to_u32(h))
    }

    /// The predefined name of the option: its qualified name matched
    /// against the closed set of well-known names; a vendor name yields
    /// nothing.
    pub fn as_predefined_name(&self) -> (r: Option<PredefinedMediaName>)
        ensures
            match self.option@.name {
                Some(n) => r == media_name_spec(n),
                None => r is None,
            },
    {
        match &self.option.name {
            Option::Some(n) => PredefinedMediaName::from_name(n),
            Option::None => None,
        }
    }
}

/// A page orientation choice: one option of the `PageOrientation` feature.
pub struct PageOrientation {
    /// The option of the feature.
    pub option: PrintFeatureOption,
    /// The parameter initializations the option depends on.
    pub parameters: Vec<ParameterInit>,
}

impl PageOrientation {
    /// Wrap an option and its parameters.
    pub fn new(option: PrintFeatureOption, parameters: Vec<ParameterInit>) -> (r: Self)
        ensures
            r.option@ == option@,
            views_of(r.parameters@) == views_of(parameters@),
    {
        PageOrientation { option, parameters }
    }

    /// The qualified name of the feature this wrapper reads.
    pub fn feature_name() -> (r: QName)
        ensures
            r@ == psk_name("PageOrientation"@),
    {
        QName::qualified("PageOrientation", NS_PSK, Some("psk"))
    }

    /// One wrapper per option of the feature, each carrying the default
    /// values of the parameters its scored properties reference.
    pub fn list(capabilities: &PrintCapabilities) -> (r: Vec<Self>)
        ensures
            r@.len() == options_for_spec(
                views_of(capabilities.document.features@),
                psk_name("PageOrientation"@),
            ).len(),
            forall|j: int| 0 <= j < r@.len() ==> (#[trigger] r@[j]).option@ == options_for_spec(
                views_of(capabilities.document.features@),
                psk_name("PageOrientation"@),
            )[j] && views_of(r@[j].parameters@) == default_params_for_spec(
                views_of(capabilities.document.parameter_defs@),
                sps_deps_spec(
                    options_for_spec(
                        views_of(capabilities.document.features@),
                        psk_name("PageOrientation"@),
                    )[j].scored_properties,
                ),
            ),
    {
        let fname = Self::feature_name();
        let opts = capabilities.options_for_feature(&fname);
        let ghost ov = views_of(opts@);
        let ghost fv = views_of(capabilities.document.features@);
        let ghost dv = views_of(capabilities.document.parameter_defs@);
        let mut out: Vec<Self> = Vec::new();
        let mut j: usize = 0;
        while j < opts.len()
            invariant
                0 <= j <= opts.len(),
                out@.len() == j,
                ov == views_of(opts@),
                ov == options_for_spec(fv, psk_name("PageOrientation"@)),
                fv == views_of(capabilities.document.features@),
                dv == views_of(capabilities.document.parameter_defs@),
                forall|k: int| 0 <= k < j ==> (#[trigger] out@[k]).option@ == ov[k] && views_of(
                    out@[k].parameters@,
                ) == default_params_for_spec(dv, sps_deps_spec(ov[k].scored_properties)),
            decreases opts.len() - j,
        {
            let deps = opts[j].parameters_dependent();
            let params = capabilities.default_parameters_for(deps.as_slice());
            out.push(PageOrientation { option: opts[j].clone(), parameters: params });
            j = j + 1;
        }
        out
    }

    /// The display name of the option, if it carries one.
    pub fn display_name(&self) -> (r: Option<&str>)
        ensures
            match r {
                Option::Some(s) => display_name_spec(self.option@) == Some(s@),
                Option::None => display_name_spec(self.option@) is None,
            },
    {
        display_name_of(&self.option)
    }

    /// Wrap the option and its parameters into a single-feature ticket,
    /// for submission to the external merge step.
    pub fn to_print_ticket(self) -> (r: PrintTicket)
        ensures
            r@ == emit_of(
                ser_ticket(
                    single_feature_doc(
                        psk_name("PageOrientation"@),
                        self.option@,
                        views_of(self.parameters@),
                    ),
                ),
            ),
    {
        let d = make_single_feature_doc(Self::feature_name(), self.option, self.parameters);
        PrintTicket::from_document(&d)
    }

    /// The predefined name of the option: its qualified name matched
    /// against the closed set of well-known names; a vendor name yields
    /// nothing.
    pub fn as_predefined_name(&self) -> (r: Option<PredefinedPageOrientation>)
        ensures
            match self.option@.name {
                Some(n) => r == orientation_spec(n),
                None => r is None,
            },
    {
        match &self.option.name {
            Option::Some(n) => PredefinedPageOrientation::from_name(n),
            Option::None => None,
        }
    }
}

/// A page resolution choice: one option of the `PageResolution` feature.
pub struct PageResolution {
    /// The option of the feature.
    pub option: PrintFeatureOption,
    /// The parameter initializations the option depends on.
    pub parameters: Vec<ParameterInit>,
}

impl PageResolution {
    /// Wrap an option and its parameters.
    pub fn new(option: PrintFeatureOption, parameters: Vec<ParameterInit>) -> (r: Self)
        ensures
            r.option@ == option@,
            views_of(r.parameters@) == views_of(parameters@),
    {
        PageResolution { option, parameters }
    }

    /// The qualified name of the feature this wrapper reads.
    pub fn feature_name() -> (r: QName)
        ensures
            r@ == psk_name("PageResolution"@),
    {
        QName::qualified("PageResolution", NS_PSK, Some("psk"))
    }

    /// One wrapper per option of the feature, each carrying the default
    /// values of the parameters its scored properties reference.
    pub fn list(capabilities: &PrintCapabilities) -> (r: Vec<Self>)
        ensures
            r@.len() == options_for_spec(
                views_of(capabilities.document.features@),
                psk_name("PageResolution"@),
            ).len(),
            forall|j: int| 0 <= j < r@.len() ==> (#[trigger] r@[j]).option@ == options_for_spec(
                views_of(capabilities.document.features@),
                psk_name("PageResolution"@),
            )[j] && views_of(r@[j].parameters@) == default_params_for_spec(
                views_of(capabilities.document.parameter_defs@),
                sps_deps_spec(
                    options_for_spec(
                        views_of(capabilities.document.features@),
                        psk_name("PageResolution"@),
                    )[j].scored_properties,
                ),
            ),
    {
        let fname = Self::feature_name();
        let opts = capabilities.options_for_feature(&fname);
        let ghost ov = views_of(opts@);
        let ghost fv = views_of(capabilities.document.features@);
        let ghost dv = views_of(capabilities.document.parameter_defs@);
        let mut out: Vec<Self> = Vec::new();
        let mut j: usize = 0;
        while j < opts.len()
            invariant
                0 <= j <= opts.len(),
                out@.len() == j,
                ov == views_of(opts@),
                ov == options_for_spec(fv, psk_name("PageResolution"@)),
                fv == views_of(capabilities.document.features@),
                dv == views_of(capabilities.document.parameter_defs@),
                forall|k: int| 0 <= k < j ==> (#[trigger] out@[k]).option@ == ov[k] && views_of(
                    out@[k].parameters@,
                ) == default_params_for_spec(dv, sps_deps_spec(ov[k].scored_properties)),
            decreases opts.len() - j,
        {
            let deps = opts[j].parameters_dependent();
            let params = capabilities.default_parameters_for(deps.as_slice());
            out.push(PageResolution { option: opts[j].clone(), parameters: params });
            j = j + 1;
        }
        out
    }

    /// The display name of the option, if it carries one.
    pub fn display_name(&self) -> (r: Option<&str>)
        ensures
            match r {
                Option::Some(s) => display_name_spec(self.option@) == Some(s@),
                Option::None => display_name_spec(self.option@) is None,
            },
    {
        display_name_of(&self.option)
    }

    /// Wrap the option and its parameters into a single-feature ticket,
    /// for submission to the external merge step.
    pub fn to_print_ticket(self) -> (r: PrintTicket)
        ensures
            r@ == emit_of(
                ser_ticket(
                    single_feature_doc(
                        psk_name("PageResolution"@),
                        self.option@,
                        views_of(self.parameters@),
                    ),
                ),
            ),
    {
        let d = make_single_feature_doc(Self::feature_name(), self.option, self.parameters);
        PrintTicket::from_document(&d)
    }

    /// The resolution the option's scored properties give, in dots per
    /// inch; an absent axis reads as zero.
    pub fn dpi(&self) -> (r: (u32, u32))
        ensures
            r.0 as int == wrap_u32(
                scored_int_spec(self.option@, "ResolutionX"@, views_of(self.parameters@)),
            ),
            r.1 as int == wrap_u32(
                scored_int_spec(self.option@, "ResolutionY"@, views_of(self.parameters@)),
            ),
    {
        let x = scored_int(&self.option, "ResolutionX", self.parameters.as_slice());
        let y = scored_int(&self.option, "ResolutionY", self.parameters.as_slice());
        (to_u32(x), to_u32(y))
    }
}

/// A page output color choice: one option of the `PageOutputColor` feature.
pub struct PageOutputColor {
    /// The option of the feature.
    pub option: PrintFeatureOption,
    /// The parameter initializations the option depends on.
    pub parameters: Vec<ParameterInit>,
}

impl PageOutputColor {
    /// Wrap an option and its parameters.
    pub fn new(option: PrintFeatureOption, parameters: Vec<ParameterInit>) -> (r: Self)
        ensures
            r.option@ == option@,
            views_of(r.parameters@) == views_of(parameters@),
    {
        PageOutputColor { option, parameters }
    }

    /// The qualified name of the feature this wrapper reads.
    pub fn feature_name() -> (r: QName)
        ensures
            r@ == psk_name("PageOutputColor"@),
    {
        QName::qualified("PageOutputColor", NS_PSK, Some("psk"))
    }

    /// One wrapper per option of the feature, each carrying the default
    /// values of the parameters its scored properties reference.
    pub fn list(capabilities: &PrintCapabilities) -> (r: Vec<Self>)
        ensures
            r@.len() == options_for_spec(
                views_of(capabilities.document.features@),
                psk_name("PageOutputColor"@),
            ).len(),
            forall|j: int| 0 <= j < r@.len() ==> (#[trigger] r@[j]).option@ == options_for_spec(
                views_of(capabilities.document.features@),
                psk_name("PageOutputColor"@),
            )[j] && views_of(r@[j].parameters@) == default_params_for_spec(
                views_of(capabilities.document.parameter_defs@),
                sps_deps_spec(
                    options_for_spec(
                        views_of(capabilities.document.features@),
                        psk_name("PageOutputColor"@),
                    )[j].scored_properties,
                ),
            ),
    {
        let fname = Self::feature_name();
        let opts = capabilities.options_for_feature(&fname);
        let ghost ov = views_of(opts@);
        let ghost fv = views_of(capabilities.document.features@);
        let ghost dv = views_of(capabilities.document.parameter_defs@);
        let mut out: Vec<Self> = Vec::new();
        let mut j: usize = 0;
        while j < opts.len()
            invariant
                0 <= j <= opts.len(),
                out@.len() == j,
                ov == views_of(opts@),
                ov == options_for_spec(fv, psk_name("PageOutputColor"@)),
                fv == views_of(capabilities.document.features@),
                dv == views_of(capabilities.document.parameter_defs@),
                forall|k: int| 0 <= k < j ==> (#[trigger] out@[k]).option@ == ov[k] && views_of(
                    out@[k].parameters@,
                ) == default_params_for_spec(dv, sps_deps_spec(ov[k].scored_properties)),
            decreases opts.len() - j,
        {
            let deps = opts[j].parameters_dependent();
            let params = capabilities.default_parameters_for(deps.as_slice());
            out.push(PageOutputColor { option: opts[j].clone(), parameters: params });
            j = j + 1;
        }
        out
    }

    /// The display name of the option, if it carries one.
    pub fn display_name(&self) -> (r: Option<&str>)
        ensures
            match r {
                Option::Some(s) => display_name_spec(self.option@) == Some(s@),
                Option::None => display_name_spec(self.option@) is None,
            },
    {
        display_name_of(&self.option)
    }

    /// Wrap the option and its parameters into a single-feature ticket,
    /// for submission to the external merge step.
    pub fn to_print_ticket(self) -> (r: PrintTicket)
        ensures
            r@ == emit_of(
                ser_ticket(
                    single_feature_doc(
                        psk_name("PageOutputColor"@),
                        self.option@,
                        views_of(self.parameters@),
                    ),
                ),
            ),
    {
        let d = make_single_feature_doc(Self::feature_name(), self.option, self.parameters);
        PrintTicket::from_document(&d)
    }

    /// The predefined name of the option: its qualified name matched
    /// against the closed set of well-known names; a vendor name yields
    /// nothing.
    pub fn as_predefined_name(&self) -> (r: Option<PredefinedPageOutputColor>)
        ensures
            match self.option@.name {
                Some(n) => r == output_color_spec(n),
                None => r is None,
            },
    {
        match &self.option.name {
            Option::Some(n) => PredefinedPageOutputColor::from_name(n),
            Option::None => None,
        }
    }
}

/// A document duplex choice: one option of the `DocumentDuplex` feature.
pub struct DocumentDuplex {
    /// The option of the feature.
    pub option: PrintFeatureOption,
    /// The parameter initializations the option depends on.
    pub parameters: Vec<ParameterInit>,
}

impl DocumentDuplex {
    /// Wrap an option and its parameters.
    pub fn new(option: PrintFeatureOption, parameters: Vec<ParameterInit>) -> (r: Self)
        ensures
            r.option@ == option@,
            views_of(r.parameters@) == views_of(parameters@),
    {
        DocumentDuplex { option, parameters }
    }

    /// The qualified name of the feature this wrapper reads.
    pub fn feature_name() -> (r: QName)
        ensures
            r@ == psk_name("DocumentDuplex"@),
    {
        QName::qualified("DocumentDuplex", NS_PSK, Some("psk"))
    }

    /// One wrapper per option of the feature, each carrying the default
    /// values of the parameters its scored properties reference.
    pub fn list(capabilities: &PrintCapabilities) -> (r: Vec<Self>)
        ensures
            r@.len() == options_for_spec(
                views_of(capabilities.document.features@),
                psk_name("DocumentDuplex"@),
            ).len(),
            forall|j: int| 0 <= j < r@.len() ==> (#[trigger] r@[j]).option@ == options_for_spec(
                views_of(capabilities.document.features@),
                psk_name("DocumentDuplex"@),
            )[j] && views_of(r@[j].parameters@) == default_params_for_spec(
                views_of(capabilities.document.parameter_defs@),
                sps_deps_spec(
                    options_for_spec(
                        views_of(capabilities.document.features@),
                        psk_name("DocumentDuplex"@),
                    )[j].scored_properties,
                ),
            ),
    {
        let fname = Self::feature_name();
        let opts = capabilities.options_for_feature(&fname);
        let ghost ov = views_of(opts@);
        let ghost fv = views_of(capabilities.document.features@);
        let ghost dv = views_of(capabilities.document.parameter_defs@);
        let mut out: Vec<Self> = Vec::new();
        let mut j: usize = 0;
        while j < opts.len()
            invariant
                0 <= j <= opts.len(),
                out@.len() == j,
                ov == views_of(opts@),
                ov == options_for_spec(fv, psk_name("DocumentDuplex"@)),
                fv == views_of(capabilities.document.features@),
                dv == views_of(capabilities.document.parameter_defs@),
                forall|k: int| 0 <= k < j ==> (#[trigger] out@[k]).option@ == ov[k] && views_of(
                    out@[k].parameters@,
                ) == default_params_for_spec(dv, sps_deps_spec(ov[k].scored_properties)),
            decreases opts.len() - j,
        {
            let deps = opts[j].parameters_dependent();
            let params = capabilities.default_parameters_for(deps.as_slice());
            out.push(DocumentDuplex { option: opts[j].clone(), parameters: params });
            j = j + 1;
        }
        out
    }

    /// The display name of the option, if it carries one.
    pub fn display_name(&self) -> (r: Option<&str>)
        ensures
            match r {
                Option::Some(s) => display_name_spec(self.option@) == Some(s@),
                Option::None => display_name_spec(self.option@) is None,
            },
    {
        display_name_of(&self.option)
    }

    /// Wrap the option and its parameters into a single-feature ticket,
    /// for submission to the external merge step.
    pub fn to_print_ticket(self) -> (r: PrintTicket)
        ensures
            r@ == emit_of(
                ser_ticket(
                    single_feature_doc(
                        psk_name("DocumentDuplex"@),
                        self.option@,
                        views_of(self.parameters@),
                    ),
                ),
            ),
    {
        let d = make_single_feature_doc(Self::feature_name(), self.option, self.parameters);
        PrintTicket::from_document(&d)
    }

    /// The predefined name of the option: its qualified name matched
    /// against the closed set of well-known names; a vendor name yields
    /// nothing.
    pub fn as_predefined_name(&self) -> (r: Option<PredefinedDuplexType>)
        ensures
            match self.option@.name {
                Some(n) => r == duplex_spec(n),
                None => r is None,
            },
    {
        match &self.option.name {
            Option::Some(n) => PredefinedDuplexType::from_name(n),
            Option::None => None,
        }
    }
}

/// A job duplex choice: one option of the `JobDuplexAllDocumentsContiguously` feature.
pub struct JobDuplex {
    /// The option of the feature.
    pub option: PrintFeatureOption,
    /// The parameter initializations the option depends on.
    pub parameters: Vec<ParameterInit>,
}

impl JobDuplex {
    /// Wrap an option and its parameters.
    pub fn new(option: PrintFeatureOption, parameters: Vec<ParameterInit>) -> (r: Self)
        ensures
            r.option@ == option@,
            views_of(r.parameters@) == views_of(parameters@),
    {
        JobDuplex { option, parameters }
    }

    /// The qualified name of the feature this wrapper reads.
    pub fn feature_name() -> (r: QName)
        ensures
            r@ == psk_name("JobDuplexAllDocumentsContiguously"@),
    {
        QName::qualified("JobDuplexAllDocumentsContiguously", NS_PSK, Some("psk"))
    }

    /// One wrapper per option of the feature, each carrying the default
    /// values of the parameters its scored properties reference.
    pub fn list(capabilities: &PrintCapabilities) -> (r: Vec<Self>)
        ensures
            r@.len() == options_for_spec(
                views_of(capabilities.document.features@),
                psk_name("JobDuplexAllDocumentsContiguously"@),
            ).len(),
            forall|j: int| 0 <= j < r@.len() ==> (#[trigger] r@[j]).option@ == options_for_spec(
                views_of(capabilities.document.features@),
                psk_name("JobDuplexAllDocumentsContiguously"@),
            )[j] && views_of(r@[j].parameters@) == default_params_for_spec(
                views_of(capabilities.document.parameter_defs@),
                sps_deps_spec(
                    options_for_spec(
                        views_of(capabilities.document.features@),
                        psk_name("JobDuplexAllDocumentsContiguously"@),
                    )[j].scored_properties,
                ),
            ),
    {
        let fname = Self::feature_name();
        let opts = capabilities.options_for_feature(&fname);
        let ghost ov = views_of(opts@);
        let ghost fv = views_of(capabilities.document.features@);
        let ghost dv = views_of(capabilities.document.parameter_defs@);
        let mut out: Vec<Self> = Vec::new();
        let mut j: usize = 0;
        while j < opts.len()
            invariant
                0 <= j <= opts.len(),
                out@.len() == j,
                ov == views_of(opts@),
                ov == options_for_spec(fv, psk_name("JobDuplexAllDocumentsContiguously"@)),
                fv == views_of(capabilities.document.features@),
                dv == views_of(capabilities.document.parameter_defs@),
                forall|k: int| 0 <= k < j ==> (#[trigger] out@[k]).option@ == ov[k] && views_of(
                    out@[k].parameters@,
                ) == default_params_for_spec(dv, sps_deps_spec(ov[k].scored_properties)),
            decreases opts.len() - j,
        {
            let deps = opts[j].parameters_dependent();
            let params = capabilities.default_parameters_for(deps.as_slice());
            out.push(JobDuplex { option: opts[j].clone(), parameters: params });
            j = j + 1;
        }
        out
    }

    /// The display name of the option, if it carries one.
    pub fn display_name(&self) -> (r: Option<&str>)
        ensures
            match r {
                Option::Some(s) => display_name_spec(self.option@) == Some(s@),
                Option::None => display_name_spec(self.option@) is None,
            },
    {
        display_name_of(&self.option)
    }

    /// Wrap the option and its parameters into a single-feature ticket,
    /// for submission to the external merge step.
    pub fn to_print_ticket(self) -> (r: PrintTicket)
        ensures
            r@ == emit_of(
                ser_ticket(
                    single_feature_doc(
                        psk_name("JobDuplexAllDocumentsContiguously"@),
                        self.option@,
                        views_of(self.parameters@),
                    ),
                ),
            ),
    {
        let d = make_single_feature_doc(Self::feature_name(), self.option, self.parameters);
        PrintTicket::from_document(&d)
    }

    /// The predefined name of the option: its qualified name matched
    /// against the closed set of well-known names; a vendor name yields
    /// nothing.
    pub fn as_predefined_name(&self) -> (r: Option<PredefinedDuplexType>)
        ensures
            match self.option@.name {
                Some(n) => r == duplex_spec(n),
                None => r is None,
            },
    {
        match &self.option.name {
            Option::Some(n) => PredefinedDuplexType::from_name(n),
            Option::None => None,
        }
    }
}

impl PrintCapabilities {
    /// Every page media size choice the device reports.
    pub fn page_media_sizes(&self) -> (r: Vec<PageMediaSize>)
        ensures
            r@.len() == options_for_spec(
                views_of(self.document.features@),
                psk_name("PageMediaSize"@),
            ).len(),
            forall|j: int| 0 <= j < r@.len() ==> (#[trigger] r@[j]).option@ == options_for_spec(
                views_of(self.document.features@),
                psk_name("PageMediaSize"@),
            )[j],
    {
        PageMediaSize::list(self)
    }

    /// Every page orientation choice the device reports.
    pub fn page_orientations(&self) -> (r: Vec<PageOrientation>)
        ensures
            r@.len() == options_for_spec(
                views_of(self.document.features@),
                psk_name("PageOrientation"@),
            ).len(),
            forall|j: int| 0 <= j < r@.len() ==> (#[trigger] r@[j]).option@ == options_for_spec(
                views_of(self.document.features@),
                psk_name("PageOrientation"@),
            )[j],
    {
        PageOrientation::list(self)
    }

    /// Every page resolution choice the device reports.
    pub fn page_resolutions(&self) -> (r: Vec<PageResolution>)
        ensures
            r@.len() == options_for_spec(
                views_of(self.document.features@),
                psk_name("PageResolution"@),
            ).len(),
            forall|j: int| 0 <= j < r@.len() ==> (#[trigger] r@[j]).option@ == options_for_spec(
                views_of(self.document.features@),
                psk_name("PageResolution"@),
            )[j],
    {
        PageResolution::list(self)
    }

    /// Every page output color choice the device reports.
    pub fn page_output_colors(&self) -> (r: Vec<PageOutputColor>)
        ensures
            r@.len() == options_for_spec(
                views_of(self.document.features@),
                psk_name("PageOutputColor"@),
            ).len(),
            forall|j: int| 0 <= j < r@.len() ==> (#[trigger] r@[j]).option@ == options_for_spec(
                views_of(self.document.features@),
                psk_name("PageOutputColor"@),
            )[j],
    {
        PageOutputColor::list(self)
    }

    /// Every job duplex choice the device reports. This reads the
    /// `JobDuplexAllDocumentsContiguously` feature, not `DocumentDuplex`.
    pub fn duplexes(&self) -> (r: Vec<JobDuplex>)
        ensures
            r@.len() == options_for_spec(
                views_of(self.document.features@),
                psk_name("JobDuplexAllDocumentsContiguously"@),
            ).len(),
            forall|j: int| 0 <= j < r@.len() ==> (#[trigger] r@[j]).option@ == options_for_spec(
                views_of(self.document.features@),
                psk_name("JobDuplexAllDocumentsContiguously"@),
            )[j],
    {
        JobDuplex::list(self)
    }
}

impl crate::caps::Copies {
    /// A single-parameter ticket asking for this many copies.
    pub fn to_print_ticket(&self) -> (r: PrintTicket)
        ensures
            r@ == emit_of(
                ser_ticket(
                    PrintTicketDocumentV {
                        properties: Seq::<PropertyV>::empty(),
                        parameter_inits: seq![
                            ParameterInitV {
                                name: psk_name("JobCopiesAllDocuments"@),
                                value: PropertyValueV::Integer(self.0 as int),
                            },
                        ],
                        features: Seq::<PrintFeatureV>::empty(),
                    },
                ),
            ),
    {
        let mut inits: Vec<ParameterInit> = Vec::new();
        inits.push(
            ParameterInit {
                name: QName::qualified("JobCopiesAllDocuments", NS_PSK, Some("psk")),
                value: PropertyValue::Integer(self.0 as i32),
            },
        );
        let d = PrintTicketDocument {
            properties: Vec::new(),
            parameter_inits: inits,
            features: Vec::new(),
        };
        proof {
            assert(views_of(d.parameter_inits@) =~= seq![
                ParameterInitV {
                    name: psk_name("JobCopiesAllDocuments"@),
                    value: PropertyValueV::Integer(self.0 as int),
                },
            ]);
            assert(d@ =~~= (PrintTicketDocumentV {
                properties: Seq::<PropertyV>::empty(),
                parameter_inits: seq![
                    ParameterInitV {
                        name: psk_name("JobCopiesAllDocuments"@),
                        value: PropertyValueV::Integer(self.0 as int),
                    },
                ],
                features: Seq::<PrintFeatureV>::empty(),
            }));
        }
        PrintTicket::from_document(&d)
    }
}

} // verus!
