use vstd::prelude::*;

use crate::options::{
    encode, normalized, EngineOptions, ExtensionOptions, ListStyle, Options, ParseOptions,
    RenderOptions,
};

verus! {

/// Declares comrak's `Options`: the umbrella option record, carried opaquely to its calls.
#[verifier::external_type_specification]
#[verifier::external_body]
pub struct ExComrakOptions(comrak::ComrakOptions);

/// Declares comrak's `ExtensionOptions`, carried opaquely.
#[verifier::external_type_specification]
#[verifier::external_body]
pub struct ExComrakExtensionOptions(comrak::ComrakExtensionOptions);

/// Declares comrak's `ParseOptions`, carried opaquely.
#[verifier::external_type_specification]
#[verifier::external_body]
pub struct ExComrakParseOptions(comrak::ComrakParseOptions);

/// Declares comrak's `RenderOptions`, carried opaquely.
#[verifier::external_type_specification]
#[verifier::external_body]
pub struct ExComrakRenderOptions(comrak::ComrakRenderOptions);

/// The HTML that the parser engine renders for a document under given options
/// whose code-block tag attributes come out in a fixed order.
pub uninterp spec fn rendered_html(md: Seq<char>, opts: EngineOptions) -> Seq<char>;

/// Relies on comrak's `ExtensionOptions` fields: copies each extension switch
/// into the engine's own record; the engine-only switches keep their defaults.
#[verifier::external_body]
fn comrak_extension(x: &ExtensionOptions) -> comrak::ComrakExtensionOptions {
    let mut r = comrak::ComrakExtensionOptions::default();
    r.strikethrough = x.strikethrough; r.tagfilter = x.tagfilter; r.table = x.table;
    r.autolink = x.autolink; r.tasklist = x.tasklist; r.superscript = x.superscript;
    r.header_ids = x.header_ids.clone(); r.footnotes = x.footnotes;
    r.description_lists = x.description_lists;
    r.front_matter_delimiter = x.front_matter_delimiter.clone();
    r
}

/// Relies on comrak's `ParseOptions` fields: copies each parse-time switch.
#[verifier::external_body]
fn comrak_parse(p: &ParseOptions) -> comrak::ComrakParseOptions {
    let mut r = comrak::ComrakParseOptions::default();
    r.smart = p.smart; r.default_info_string = p.default_info_string.clone();
    r.relaxed_tasklist_matching = p.relaxed_tasklist_matching;
    r.relaxed_autolinks = p.relaxed_autolinks;
    r
}

/// Relies on comrak's `RenderOptions` fields and `ListStyleType` variants:
/// copies each render-time setting, the bullet glyph variant for variant.
#[verifier::external_body]
fn comrak_render(o: &RenderOptions) -> comrak::ComrakRenderOptions {
    let mut r = comrak::ComrakRenderOptions::default();
    r.hardbreaks = o.hardbreaks; r.github_pre_lang = o.github_pre_lang;
    r.full_info_string = o.full_info_string; r.width = o.width; r.unsafe_ = o.unsafe_;
    r.escape = o.escape; r.sourcepos = o.sourcepos;
    r.list_style = match o.list_style {
        ListStyle::Dash => comrak::ListStyleType::Dash,
        ListStyle::Plus => comrak::ListStyleType::Plus,
        ListStyle::Star => comrak::ListStyleType::Star,
    };
    r
}

/// Relies on comrak's `Options`: the umbrella record of the three groups.
#[verifier::external_body]
fn comrak_options(
    extension: comrak::ComrakExtensionOptions,
    parse: comrak::ComrakParseOptions,
    render: comrak::ComrakRenderOptions,
) -> comrak::ComrakOptions {
    comrak::ComrakOptions { extension, parse, render }
}

impl EngineOptions {
    /// The same options in the parser engine's own option record.
    pub fn to_comrak(&self) -> comrak::ComrakOptions {
        let extension = comrak_extension(&self.extension);
        let parse = comrak_parse(&self.parse);
        let render = comrak_render(&self.render);
        comrak_options(extension, parse, render)
    }
}

/// Relies on comrak::markdown_to_html: parses and renders in one pass. The
/// HTML is a function of the text and the options alone, except that the
/// attributes of a code block's `<pre>` and `<code>` tags come out in the order
/// of a `HashMap` when full info strings are on, or when GitHub-style language
/// tags and source positions are both on; so the name is claimed only outside
/// those settings.
#[verifier::external_body]
fn render_html(md: &str, opts: &EngineOptions) -> (r: String)
    ensures
        !opts.render.full_info_string && !(opts.render.github_pre_lang && opts.render.sourcepos)
            ==> r@ == rendered_html(md@, *opts),
{
    comrak::markdown_to_html(md, &opts.to_comrak())
}

/// Renders Markdown straight to HTML, without building an exchange value.
/// Where code-block tags may carry attributes in an unspecified order, the
/// HTML is left unnamed.
pub fn markdown_to_html(md: &str, opts: Options) -> (r: String)
    ensures
        !opts.full_info_string && !(opts.github_pre_lang && opts.sourcepos) ==> r@
            == rendered_html(md@, normalized(opts)),
{
    let engine = encode(opts);
    render_html(md, &engine)
}

} // verus!
