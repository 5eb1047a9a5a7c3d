//! Interface captions in the two supported languages.

use vstd::prelude::*;

verus! {

/// The language of the interface captions.
#[derive(Clone, Copy, Debug, PartialEq, Eq, Structural)]
pub enum Language {
    Zh,
    En,
}

/// The captions that the interface shows.
#[derive(Clone, Copy, Debug, PartialEq, Eq, Structural)]
pub enum Caption {
    TextMode,
    FileMode,
    From,
    To,
    InputText,
    OutputText,
    Start,
    SelectInput,
    SelectOutput,
    StatusNone,
    Transcoding,
}

/// The caption `key` in language `lang`.
pub open spec fn caption_spec(key: Caption, lang: Language) -> Seq<char> {
    match lang {
        Language::Zh => match key {
            Caption::TextMode => "文本转码"@,
            Caption::FileMode => "文件转码"@,
            Caption::From => "来源编码"@,
            Caption::To => "目标编码"@,
            Caption::InputText => "输入文本"@,
            Caption::OutputText => "输出结果"@,
            Caption::Start => "开始转码"@,
            Caption::SelectInput => "选择输入文件"@,
            Caption::SelectOutput => "选择输出文件"@,
            Caption::StatusNone => "暂无状态"@,
            Caption::Transcoding => "正在转码..."@,
        },
        Language::En => match key {
            Caption::TextMode => "Text Transcode"@,
            Caption::FileMode => "File Transcode"@,
            Caption::From => "From"@,
            Caption::To => "To"@,
            Caption::InputText => "Input Text"@,
            Caption::OutputText => "Output Text"@,
            Caption::Start => "Start Transcode"@,
            Caption::SelectInput => "Select Input File"@,
            Caption::SelectOutput => "Select Output File"@,
            Caption::StatusNone => "No Status"@,
            Caption::Transcoding => "Transcoding..."@,
        },
    }
}

/// Looks up the caption `key` in language `lang`.
pub fn t(key: Caption, lang: Language) -> (r: &'static str)
    ensures
        r@ == caption_spec(key, lang),
{
    match lang {
        Language::Zh => match key {
            Caption::TextMode => "文本转码",
            Caption::FileMode => "文件转码",
            Caption::From => "来源编码",
            Caption::To => "目标编码",
            Caption::InputText => "输入文本",
            Caption::OutputText => "输出结果",
            Caption::Start => "开始转码",
            Caption::SelectInput => "选择输入文件",
            Caption::SelectOutput => "选择输出文件",
            Caption::StatusNone => "暂无状态",
            Caption::Transcoding => "正在转码...",
        },
        Language::En => match key {
            Caption::TextMode => "Text Transcode",
            Caption::FileMode => "File Transcode",
            Caption::From => "From",
            Caption::To => "To",
            Caption::InputText => "Input Text",
            Caption::OutputText => "Output Text",
            Caption::Start => "Start Transcode",
            Caption::SelectInput => "Select Input File",
            Caption::SelectOutput => "Select Output File",
            Caption::StatusNone => "No Status",
            Caption::Transcoding => "Transcoding...",
        },
    }
}

} // verus!
