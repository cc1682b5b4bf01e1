//! The data carried across the dispatcher boundary: received options,
//! the advertised option schema, and the reply payload, each with a
//! mathematical view used by the contracts.

use vstd::prelude::*;

verus! {

/// The platform's input types an option value may carry; only the string
/// form is exercised by the callout command.
#[derive(Clone, Copy, PartialEq, Eq, Structural, Debug)]
pub enum ApplicationCommandOptionType {
    StringInput,
    IntegerInput,
    BooleanInput,
}

/// One suggestion offered while the user is typing: a human-readable
/// label and the machine value it stands for.
#[derive(Clone, PartialEq, Eq, Debug)]
pub struct ApplicationCommandOptionChoice {
    pub name: String,
    pub value: String,
}

/// The mathematical content of a suggestion pair.
pub struct ChoiceView {
    pub name: Seq<char>,
    pub value: Seq<char>,
}

impl View for ApplicationCommandOptionChoice {
    type V = ChoiceView;

    open spec fn view(&self) -> ChoiceView {
        ChoiceView { name: self.name@, value: self.value@ }
    }
}

impl DeepView for ApplicationCommandOptionChoice {
    type V = ChoiceView;

    open spec fn deep_view(&self) -> ChoiceView {
        self.view()
    }
}

/// One declared option in a command's advertised schema.
#[derive(Clone, PartialEq, Eq, Debug)]
pub struct ApplicationCommandOption {
    pub name: String,
    pub autocomplete: Option<bool>,
    pub description: String,
    pub required: Option<bool>,
    pub ty: ApplicationCommandOptionType,
    pub choices: Option<Vec<ApplicationCommandOptionChoice>>,
}

/// The mathematical content of a declared option.
pub struct CommandOptionView {
    pub name: Seq<char>,
    pub autocomplete: Option<bool>,
    pub description: Seq<char>,
    pub required: Option<bool>,
    pub ty: ApplicationCommandOptionType,
    pub choices: Option<Seq<ChoiceView>>,
}

impl View for ApplicationCommandOption {
    type V = CommandOptionView;

    open spec fn view(&self) -> CommandOptionView {
        CommandOptionView {
            name: self.name@,
            autocomplete: self.autocomplete,
            description: self.description@,
            required: self.required,
            ty: self.ty,
            choices: self.choices.deep_view(),
        }
    }
}

impl DeepView for ApplicationCommandOption {
    type V = CommandOptionView;

    open spec fn deep_view(&self) -> CommandOptionView {
        self.view()
    }
}

/// One option as received with an invocation: a free-form name, an
/// optional value (absent values do occur even for declared options),
/// and the declared input type.
#[derive(Clone, PartialEq, Eq, Debug)]
pub struct ApplicationCommandInteractionDataOption {
    pub name: String,
    pub value: Option<String>,
    pub ty: ApplicationCommandOptionType,
}

/// The mathematical content of a received option.
pub struct DataOptionView {
    pub name: Seq<char>,
    pub value: Option<Seq<char>>,
    pub ty: ApplicationCommandOptionType,
}

impl View for ApplicationCommandInteractionDataOption {
    type V = DataOptionView;

    open spec fn view(&self) -> DataOptionView {
        DataOptionView { name: self.name@, value: self.value.deep_view(), ty: self.ty }
    }
}

impl DeepView for ApplicationCommandInteractionDataOption {
    type V = DataOptionView;

    open spec fn deep_view(&self) -> DataOptionView {
        self.view()
    }
}

/// Rich embedded content; part of the shared reply shape but never
/// produced by the callout command.
#[derive(Clone, PartialEq, Eq, Debug)]
pub struct Embed {
    pub title: Option<String>,
    pub url: Option<String>,
}

/// The mathematical content of an embed.
pub struct EmbedView {
    pub title: Option<Seq<char>>,
    pub url: Option<Seq<char>>,
}

impl View for Embed {
    type V = EmbedView;

    open spec fn view(&self) -> EmbedView {
        EmbedView { title: self.title.deep_view(), url: self.url.deep_view() }
    }
}

impl DeepView for Embed {
    type V = EmbedView;

    open spec fn deep_view(&self) -> EmbedView {
        self.view()
    }
}

/// The reply payload handed back to the dispatcher. The callout command
/// populates at most one of `content` and `choices` per reply and never
/// populates `embeds`.
#[derive(Clone, PartialEq, Eq, Debug)]
pub struct InteractionApplicationCommandCallbackData {
    pub content: Option<String>,
    pub embeds: Option<Vec<Embed>>,
    pub choices: Option<Vec<ApplicationCommandOptionChoice>>,
}

/// The mathematical content of a reply payload.
pub struct CallbackDataView {
    pub content: Option<Seq<char>>,
    pub embeds: Option<Seq<EmbedView>>,
    pub choices: Option<Seq<ChoiceView>>,
}

impl View for InteractionApplicationCommandCallbackData {
    type V = CallbackDataView;

    open spec fn view(&self) -> CallbackDataView {
        CallbackDataView {
            content: self.content.deep_view(),
            embeds: self.embeds.deep_view(),
            choices: self.choices.deep_view(),
        }
    }
}

impl DeepView for InteractionApplicationCommandCallbackData {
    type V = CallbackDataView;

    open spec fn deep_view(&self) -> CallbackDataView {
        self.view()
    }
}

} // verus!
