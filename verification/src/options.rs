//! The configuration of the pass.

use vstd::prelude::*;

verus! {

/// Which declarations the pass instruments when no directive decides.
#[derive(Clone, Copy, Debug, PartialEq, Eq, Structural)]
pub enum TransformMode {
    /// Only what a directive opts in.
    Manual,
    /// Components that hold markup, and hooks that read a reactive value.
    All,
    /// Components that hold markup and read a reactive value, and hooks that
    /// read a reactive value.
    Auto,
}

impl Default for TransformMode {
    fn default() -> (mode: TransformMode)
        ensures
            mode == TransformMode::All,
    {
        TransformMode::All
    }
}

impl TransformMode {
    /// The mode that a name of the configuration stands for.
    pub open spec fn named(name: Seq<char>) -> Option<TransformMode> {
        if name == "manual"@ {
            Some(TransformMode::Manual)
        } else if name == "all"@ {
            Some(TransformMode::All)
        } else if name == "auto"@ {
            Some(TransformMode::Auto)
        } else {
            None
        }
    }

    /// The name of a mode in the configuration.
    pub fn name(&self) -> (name: &'static str)
        ensures
            TransformMode::named(name@) == Some(*self),
    {
        proof {
            reveal_strlit("manual");
            reveal_strlit("all");
            reveal_strlit("auto");
        }
        match self {
            TransformMode::Manual => {
                assert("manual"@.len() != "all"@.len());
                "manual"
            },
            TransformMode::All => {
                assert("all"@.len() != "manual"@.len());
                "all"
            },
            TransformMode::Auto => {
                assert("auto"@.len() != "manual"@.len());
                assert("auto"@.len() != "all"@.len());
                "auto"
            },
        }
    }

    /// Reads a mode from its name in the configuration: `manual`, `all` or
    /// `auto`.
    pub fn from_name(name: &str) -> (mode: Option<TransformMode>)
        ensures
            mode == TransformMode::named(name@),
    {
        let given = name.to_string();
        if given == "manual".to_string() {
            Some(TransformMode::Manual)
        } else if given == "all".to_string() {
            Some(TransformMode::All)
        } else if given == "auto".to_string() {
            Some(TransformMode::Auto)
        } else {
            None
        }
    }
}

/// The switches that are not settled yet.
#[derive(Clone, Copy, Debug, PartialEq, Eq, Structural)]
pub struct PreactSignalsPluginExperimental {
    /// Whether a wrapped body tells the tracking entry point what kind of
    /// declaration it belongs to.
    pub add_hook_usage_flag: bool,
}

impl Default for PreactSignalsPluginExperimental {
    fn default() -> (experimental: PreactSignalsPluginExperimental)
        ensures
            experimental == (PreactSignalsPluginExperimental { add_hook_usage_flag: false }),
    {
        PreactSignalsPluginExperimental { add_hook_usage_flag: false }
    }
}

/// The module that exports the tracking entry point, unless the
/// configuration names another.
pub open spec fn default_import_source_spec() -> Seq<char> {
    "@preact-signals/safe-react/tracking"@
}

/// The module that exports the tracking entry point, unless the
/// configuration names another.
pub fn default_import_source() -> (source: String)
    ensures
        source@ == default_import_source_spec(),
{
    "@preact-signals/safe-react/tracking".to_string()
}

/// The configuration of the pass.
#[derive(Clone, Debug, PartialEq, Eq)]
pub struct PreactSignalsPluginOptions {
    pub mode: TransformMode,
    pub import_source: String,
    pub transform_hooks: bool,
    pub experimental: PreactSignalsPluginExperimental,
}

/// What a [`PreactSignalsPluginOptions`] holds.
pub ghost struct OptionsView {
    pub mode: TransformMode,
    pub import_source: Seq<char>,
    pub transform_hooks: bool,
    pub add_hook_usage_flag: bool,
}

impl View for PreactSignalsPluginOptions {
    type V = OptionsView;

    open spec fn view(&self) -> OptionsView {
        OptionsView {
            mode: self.mode,
            import_source: self.import_source@,
            transform_hooks: self.transform_hooks,
            add_hook_usage_flag: self.experimental.add_hook_usage_flag,
        }
    }
}

/// The configuration where nothing is given: mode `all`, the default module,
/// hooks instrumented, no kind told.
pub open spec fn default_options() -> OptionsView {
    OptionsView {
        mode: TransformMode::All,
        import_source: default_import_source_spec(),
        transform_hooks: true,
        add_hook_usage_flag: false,
    }
}

/// The configuration that a document gives, with the default in the place of
/// each entry that it leaves out; nothing where it names a mode that does not
/// exist.
pub open spec fn options_of(
    mode: Option<Seq<char>>,
    import_source: Option<Seq<char>>,
    transform_hooks: Option<bool>,
    add_hook_usage_flag: Option<bool>,
) -> Option<OptionsView> {
    let mode = match mode {
        Some(name) => TransformMode::named(name),
        None => Some(TransformMode::All),
    };
    match mode {
        Some(mode) => Some(
            OptionsView {
                mode,
                import_source: match import_source {
                    Some(source) => source,
                    None => default_import_source_spec(),
                },
                transform_hooks: match transform_hooks {
                    Some(flag) => flag,
                    None => true,
                },
                add_hook_usage_flag: match add_hook_usage_flag {
                    Some(flag) => flag,
                    None => false,
                },
            },
        ),
        None => None,
    }
}

/// Why a configuration is refused.
#[derive(Clone, Debug, PartialEq, Eq)]
pub enum ConfigError {
    /// The mode is none of `manual`, `all`, `auto`.
    UnknownMode(String),
}

impl Default for PreactSignalsPluginOptions {
    fn default() -> (options: PreactSignalsPluginOptions)
        ensures
            options@ == default_options(),
    {
        PreactSignalsPluginOptions {
            mode: TransformMode::All,
            import_source: default_import_source(),
            transform_hooks: true,
            experimental: PreactSignalsPluginExperimental { add_hook_usage_flag: false },
        }
    }
}

impl PreactSignalsPluginOptions {
    /// Mode `auto` with hooks instrumented.
    pub fn auto_hooks() -> (options: PreactSignalsPluginOptions)
        ensures
            options@ == (OptionsView { mode: TransformMode::Auto, ..default_options() }),
    {
        PreactSignalsPluginOptions {
            mode: TransformMode::Auto,
            import_source: default_import_source(),
            transform_hooks: true,
            experimental: PreactSignalsPluginExperimental { add_hook_usage_flag: false },
        }
    }

    /// Mode `auto` with hooks instrumented and the kind told to the tracking
    /// entry point.
    pub fn auto_hooks_and_hook_usage_flag() -> (options: PreactSignalsPluginOptions)
        ensures
            options@ == (OptionsView {
                mode: TransformMode::Auto,
                add_hook_usage_flag: true,
                ..default_options()
            }),
    {
        PreactSignalsPluginOptions {
            mode: TransformMode::Auto,
            import_source: default_import_source(),
            transform_hooks: true,
            experimental: PreactSignalsPluginExperimental { add_hook_usage_flag: true },
        }
    }

    /// Mode `auto` with hooks instrumented and the kind told to the tracking
    /// entry point.
    pub fn auto_hooks_context_flags() -> (options: PreactSignalsPluginOptions)
        ensures
            options@ == (OptionsView {
                mode: TransformMode::Auto,
                add_hook_usage_flag: true,
                ..default_options()
            }),
    {
        PreactSignalsPluginOptions {
            mode: TransformMode::Auto,
            import_source: default_import_source(),
            transform_hooks: true,
            experimental: PreactSignalsPluginExperimental { add_hook_usage_flag: true },
        }
    }

    /// Checks the entries of a configuration document and fills in the
    /// defaults: mode `all`, the default module, hooks instrumented, no kind
    /// told. A mode other than `manual`, `all` and `auto` is refused.
    pub fn from_parts(
        mode: Option<&str>,
        import_source: Option<String>,
        transform_hooks: Option<bool>,
        add_hook_usage_flag: Option<bool>,
    ) -> (checked: Result<PreactSignalsPluginOptions, ConfigError>)
        ensures
            match checked {
                Ok(options) => options_of(
                    match mode {
                        Some(name) => Some(name@),
                        None => None,
                    },
                    match import_source {
                        Some(source) => Some(source@),
                        None => None,
                    },
                    transform_hooks,
                    add_hook_usage_flag,
                ) == Some(options@),
                Err(ConfigError::UnknownMode(name)) => mode matches Some(given) && given@ == name@
                    && TransformMode::named(name@) is None,
            },
    {
        let mode = match mode {
            Some(name) => match TransformMode::from_name(name) {
                Some(mode) => mode,
                None => {
                    return Err(ConfigError::UnknownMode(name.to_string()));
                },
            },
            None => TransformMode::All,
        };
        Ok(
            PreactSignalsPluginOptions {
                mode,
                import_source: match import_source {
                    Some(source) => source,
                    None => default_import_source(),
                },
                transform_hooks: match transform_hooks {
                    Some(flag) => flag,
                    None => true,
                },
                experimental: PreactSignalsPluginExperimental {
                    add_hook_usage_flag: match add_hook_usage_flag {
                        Some(flag) => flag,
                        None => false,
                    },
                },
            },
        )
    }
}

} // verus!
