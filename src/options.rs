use vstd::prelude::*;

verus! {

/// Glyph used for bullet list markers when rendering back to Markdown.
#[derive(Clone, Copy, Debug, PartialEq, Eq, Structural)]
pub enum ListStyle {
    Dash,
    Plus,
    Star,
}

/// The flat configuration record supplied by a caller for one parse or render call.
pub struct Options {
    // dialect extensions
    pub strikethrough: bool,
    pub tagfilter: bool,
    pub table: bool,
    pub autolink: bool,
    pub tasklist: bool,
    pub superscript: bool,
    pub header_ids: Option<String>,
    pub footnotes: bool,
    pub description_lists: bool,
    pub front_matter_delimiter: Option<String>,
    // parse-time behaviour
    pub smart: bool,
    pub default_info_string: Option<String>,
    pub relaxed_tasklist_matching: bool,
    pub relaxed_autolinks: bool,
    // render-time behaviour
    pub hardbreaks: bool,
    pub github_pre_lang: bool,
    pub full_info_string: bool,
    pub width: usize,
    pub unsafe_: bool,
    pub escape: bool,
    pub list_style: ListStyle,
    pub sourcepos: bool,
}

/// Dialect extensions, as grouped for the parser engine.
pub struct ExtensionOptions {
    pub strikethrough: bool,
    pub tagfilter: bool,
    pub table: bool,
    pub autolink: bool,
    pub tasklist: bool,
    pub superscript: bool,
    pub header_ids: Option<String>,
    pub footnotes: bool,
    pub description_lists: bool,
    pub front_matter_delimiter: Option<String>,
}

/// Parse-time behaviour, as grouped for the parser engine.
pub struct ParseOptions {
    pub smart: bool,
    pub default_info_string: Option<String>,
    pub relaxed_tasklist_matching: bool,
    pub relaxed_autolinks: bool,
}

/// Render-time behaviour, as grouped for the parser engine.
pub struct RenderOptions {
    pub hardbreaks: bool,
    pub github_pre_lang: bool,
    pub full_info_string: bool,
    pub width: usize,
    pub unsafe_: bool,
    pub escape: bool,
    pub list_style: ListStyle,
    pub sourcepos: bool,
}

/// The three option groups that the parser engine consumes.
pub struct EngineOptions {
    pub extension: ExtensionOptions,
    pub parse: ParseOptions,
    pub render: RenderOptions,
}

/// The documented default of every field: every extension off, no default info
/// string, and strict, safe rendering (no raw HTML, escaping on, no hard breaks,
/// no wrapping, dash bullets, no source positions).
pub open spec fn default_options() -> Options {
    Options {
        strikethrough: false,
        tagfilter: false,
        table: false,
        autolink: false,
        tasklist: false,
        superscript: false,
        header_ids: None,
        footnotes: false,
        description_lists: false,
        front_matter_delimiter: None,
        smart: false,
        default_info_string: None,
        relaxed_tasklist_matching: false,
        relaxed_autolinks: false,
        hardbreaks: false,
        github_pre_lang: false,
        full_info_string: false,
        width: 0,
        unsafe_: false,
        escape: true,
        list_style: ListStyle::Dash,
        sourcepos: false,
    }
}

/// The engine options that a configuration record stands for: every field is
/// carried unchanged into its group.
pub open spec fn normalized(o: Options) -> EngineOptions {
    EngineOptions {
        extension: ExtensionOptions {
            strikethrough: o.strikethrough,
            tagfilter: o.tagfilter,
            table: o.table,
            autolink: o.autolink,
            tasklist: o.tasklist,
            superscript: o.superscript,
            header_ids: o.header_ids,
            footnotes: o.footnotes,
            description_lists: o.description_lists,
            front_matter_delimiter: o.front_matter_delimiter,
        },
        parse: ParseOptions {
            smart: o.smart,
            default_info_string: o.default_info_string,
            relaxed_tasklist_matching: o.relaxed_tasklist_matching,
            relaxed_autolinks: o.relaxed_autolinks,
        },
        render: RenderOptions {
            hardbreaks: o.hardbreaks,
            github_pre_lang: o.github_pre_lang,
            full_info_string: o.full_info_string,
            width: o.width,
            unsafe_: o.unsafe_,
            escape: o.escape,
            list_style: o.list_style,
            sourcepos: o.sourcepos,
        },
    }
}

impl Default for Options {
    fn default() -> (r: Options)
        ensures
            r == default_options(),
    {
        Options {
            strikethrough: false,
            tagfilter: false,
            table: false,
            autolink: false,
            tasklist: false,
            superscript: false,
            header_ids: None,
            footnotes: false,
            description_lists: false,
            front_matter_delimiter: None,
            smart: false,
            default_info_string: None,
            relaxed_tasklist_matching: false,
            relaxed_autolinks: false,
            hardbreaks: false,
            github_pre_lang: false,
            full_info_string: false,
            width: 0,
            unsafe_: false,
            escape: true,
            list_style: ListStyle::Dash,
            sourcepos: false,
        }
    }
}

/// The fixed configuration of the single-argument entry point: the GitHub
/// extensions (strikethrough, tag filter, tables, autolinks, task lists,
/// superscript, footnotes) on, hard line breaks and GitHub-style code-block
/// classes on, and every other field off, escaping included.
pub open spec fn extended_options_spec() -> Options {
    Options {
        strikethrough: true,
        tagfilter: true,
        table: true,
        autolink: true,
        tasklist: true,
        superscript: true,
        footnotes: true,
        hardbreaks: true,
        github_pre_lang: true,
        escape: false,
        ..default_options()
    }
}

/// Builds the fixed configuration of the single-argument entry point.
pub fn extended_options() -> (r: Options)
    ensures
        r == extended_options_spec(),
{
    let mut r = Options::default();
    r.strikethrough = true;
    r.tagfilter = true;
    r.table = true;
    r.autolink = true;
    r.tasklist = true;
    r.superscript = true;
    r.footnotes = true;
    r.hardbreaks = true;
    r.github_pre_lang = true;
    r.escape = false;
    r
}

/// Translates a configuration record into the engine's three option groups.
/// Total: every record is accepted, and every field lands in its group unchanged.
pub fn encode(opts: Options) -> (r: EngineOptions)
    ensures
        r == normalized(opts),
{
    let extension = ExtensionOptions {
        strikethrough: opts.strikethrough,
        tagfilter: opts.tagfilter,
        table: opts.table,
        autolink: opts.autolink,
        tasklist: opts.tasklist,
        superscript: opts.superscript,
        header_ids: opts.header_ids,
        footnotes: opts.footnotes,
        description_lists: opts.description_lists,
        front_matter_delimiter: opts.front_matter_delimiter,
    };
    let parse = ParseOptions {
        smart: opts.smart,
        default_info_string: opts.default_info_string,
        relaxed_tasklist_matching: opts.relaxed_tasklist_matching,
        relaxed_autolinks: opts.relaxed_autolinks,
    };
    let render = RenderOptions {
        hardbreaks: opts.hardbreaks,
        github_pre_lang: opts.github_pre_lang,
        full_info_string: opts.full_info_string,
        width: opts.width,
        unsafe_: opts.unsafe_,
        escape: opts.escape,
        list_style: opts.list_style,
        sourcepos: opts.sourcepos,
    };
    EngineOptions { extension, parse, render }
}

/// Normalisation depends on the field values alone: a record that spells out the
/// default value of every field normalises exactly as the default record does.
pub proof fn lemma_default_normalization(explicit: Options)
    requires
        explicit.strikethrough == default_options().strikethrough,
        explicit.tagfilter == default_options().tagfilter,
        explicit.table == default_options().table,
        explicit.autolink == default_options().autolink,
        explicit.tasklist == default_options().tasklist,
        explicit.superscript == default_options().superscript,
        explicit.header_ids == default_options().header_ids,
        explicit.footnotes == default_options().footnotes,
        explicit.description_lists == default_options().description_lists,
        explicit.front_matter_delimiter == default_options().front_matter_delimiter,
        explicit.smart == default_options().smart,
        explicit.default_info_string == default_options().default_info_string,
        explicit.relaxed_tasklist_matching == default_options().relaxed_tasklist_matching,
        explicit.relaxed_autolinks == default_options().relaxed_autolinks,
        explicit.hardbreaks == default_options().hardbreaks,
        explicit.github_pre_lang == default_options().github_pre_lang,
        explicit.full_info_string == default_options().full_info_string,
        explicit.width == default_options().width,
        explicit.unsafe_ == default_options().unsafe_,
        explicit.escape == default_options().escape,
        explicit.list_style == default_options().list_style,
        explicit.sourcepos == default_options().sourcepos,
    ensures
        normalized(explicit) == normalized(default_options()),
{
}

} // verus!
