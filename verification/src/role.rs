use vstd::prelude::*;

verus! {

/// What a node is: the fundamental category that every node carries
/// from construction on.
#[derive(Clone, Copy, Debug, PartialEq, Eq, Structural)]
pub enum Role {
    Unknown,
    TextRun,
    Cell,
    Label,
    Image,
    Link,
    Row,
    ListItem,
    ListMarker,
    TreeItem,
    ListBoxOption,
    MenuItem,
    MenuListOption,
    Paragraph,
    GenericContainer,
    CheckBox,
    RadioButton,
    TextInput,
    Button,
    DefaultButton,
    Pane,
    RowHeader,
    ColumnHeader,
    RowGroup,
    List,
    Table,
    LayoutTableCell,
    LayoutTableRow,
    LayoutTable,
    Switch,
    Menu,
    MultilineTextInput,
    SearchInput,
    DateInput,
    DateTimeInput,
    WeekInput,
    MonthInput,
    TimeInput,
    EmailInput,
    NumberInput,
    PasswordInput,
    PhoneNumberInput,
    UrlInput,
    Abbr,
    Alert,
    AlertDialog,
    Application,
    Article,
    Audio,
    Banner,
    Blockquote,
    Canvas,
    Caption,
    Caret,
    Code,
    ColorWell,
    ComboBox,
    EditableComboBox,
    Complementary,
    Comment,
    ContentDeletion,
    ContentInsertion,
    ContentInfo,
    Definition,
    DescriptionList,
    Details,
    Dialog,
    DisclosureTriangle,
    Document,
    EmbeddedObject,
    Emphasis,
    Feed,
    FigureCaption,
    Figure,
    Footer,
    Form,
    Grid,
    GridCell,
    Group,
    Header,
    Heading,
    Iframe,
    IframePresentational,
    ImeCandidate,
    Keyboard,
    Legend,
    LineBreak,
    ListBox,
    Log,
    Main,
    Mark,
    Marquee,
    Math,
    MenuBar,
    MenuItemCheckBox,
    MenuItemRadio,
    MenuListPopup,
    Meter,
    Navigation,
    Note,
    PluginObject,
    ProgressIndicator,
    RadioGroup,
    Region,
    RootWebArea,
    Ruby,
    RubyAnnotation,
    ScrollBar,
    ScrollView,
    Search,
    Section,
    SectionFooter,
    SectionHeader,
    Slider,
    SpinButton,
    Splitter,
    Status,
    Strong,
    Suggestion,
    SvgRoot,
    Tab,
    TabList,
    TabPanel,
    Term,
    Time,
    Timer,
    TitleBar,
    Toolbar,
    Tooltip,
    Tree,
    TreeGrid,
    Video,
    WebView,
    Window,
    PdfActionableHighlight,
    PdfRoot,
    GraphicsDocument,
    GraphicsObject,
    GraphicsSymbol,
    DocAbstract,
    DocAcknowledgements,
    DocAfterword,
    DocAppendix,
    DocBackLink,
    DocBiblioEntry,
    DocBibliography,
    DocBiblioRef,
    DocChapter,
    DocColophon,
    DocConclusion,
    DocCover,
    DocCredit,
    DocCredits,
    DocDedication,
    DocEndnote,
    DocEndnotes,
    DocEpigraph,
    DocEpilogue,
    DocErrata,
    DocExample,
    DocFootnote,
    DocForeword,
    DocGlossary,
    DocGlossRef,
    DocIndex,
    DocIntroduction,
    DocNoteRef,
    DocNotice,
    DocPageBreak,
    DocPageFooter,
    DocPageHeader,
    DocPageList,
    DocPart,
    DocPreface,
    DocPrologue,
    DocPullquote,
    DocQna,
    DocSubtitle,
    DocTip,
    DocToc,
    ListGrid,
    Terminal,
}

impl Role {
    /// The variant that the boundary code table assigns to `code`,
    /// or `None` where `code` lies outside the table.
    pub open spec fn spec_from_code(code: u8) -> Option<Role> {
        match code {
            0 => Some(Role::Unknown),
            1 => Some(Role::TextRun),
            2 => Some(Role::Cell),
            3 => Some(Role::Label),
            4 => Some(Role::Image),
            5 => Some(Role::Link),
            6 => Some(Role::Row),
            7 => Some(Role::ListItem),
            8 => Some(Role::ListMarker),
            9 => Some(Role::TreeItem),
            10 => Some(Role::ListBoxOption),
            11 => Some(Role::MenuItem),
            12 => Some(Role::MenuListOption),
            13 => Some(Role::Paragraph),
            14 => Some(Role::GenericContainer),
            15 => Some(Role::CheckBox),
            16 => Some(Role::RadioButton),
            17 => Some(Role::TextInput),
            18 => Some(Role::Button),
            19 => Some(Role::DefaultButton),
            20 => Some(Role::Pane),
            21 => Some(Role::RowHeader),
            22 => Some(Role::ColumnHeader),
            23 => Some(Role::RowGroup),
            24 => Some(Role::List),
            25 => Some(Role::Table),
            26 => Some(Role::LayoutTableCell),
            27 => Some(Role::LayoutTableRow),
            28 => Some(Role::LayoutTable),
            29 => Some(Role::Switch),
            30 => Some(Role::Menu),
            31 => Some(Role::MultilineTextInput),
            32 => Some(Role::SearchInput),
            33 => Some(Role::DateInput),
            34 => Some(Role::DateTimeInput),
            35 => Some(Role::WeekInput),
            36 => Some(Role::MonthInput),
            37 => Some(Role::TimeInput),
            38 => Some(Role::EmailInput),
            39 => Some(Role::NumberInput),
            40 => Some(Role::PasswordInput),
            41 => Some(Role::PhoneNumberInput),
            42 => Some(Role::UrlInput),
            43 => Some(Role::Abbr),
            44 => Some(Role::Alert),
            45 => Some(Role::AlertDialog),
            46 => Some(Role::Application),
            47 => Some(Role::Article),
            48 => Some(Role::Audio),
            49 => Some(Role::Banner),
            50 => Some(Role::Blockquote),
            51 => Some(Role::Canvas),
            52 => Some(Role::Caption),
            53 => Some(Role::Caret),
            54 => Some(Role::Code),
            55 => Some(Role::ColorWell),
            56 => Some(Role::ComboBox),
            57 => Some(Role::EditableComboBox),
            58 => Some(Role::Complementary),
            59 => Some(Role::Comment),
            60 => Some(Role::ContentDeletion),
            61 => Some(Role::ContentInsertion),
            62 => Some(Role::ContentInfo),
            63 => Some(Role::Definition),
            64 => Some(Role::DescriptionList),
            65 => Some(Role::Details),
            66 => Some(Role::Dialog),
            67 => Some(Role::DisclosureTriangle),
            68 => Some(Role::Document),
            69 => Some(Role::EmbeddedObject),
            70 => Some(Role::Emphasis),
            71 => Some(Role::Feed),
            72 => Some(Role::FigureCaption),
            73 => Some(Role::Figure),
            74 => Some(Role::Footer),
            75 => Some(Role::Form),
            76 => Some(Role::Grid),
            77 => Some(Role::GridCell),
            78 => Some(Role::Group),
            79 => Some(Role::Header),
            80 => Some(Role::Heading),
            81 => Some(Role::Iframe),
            82 => Some(Role::IframePresentational),
            83 => Some(Role::ImeCandidate),
            84 => Some(Role::Keyboard),
            85 => Some(Role::Legend),
            86 => Some(Role::LineBreak),
            87 => Some(Role::ListBox),
            88 => Some(Role::Log),
            89 => Some(Role::Main),
            90 => Some(Role::Mark),
            91 => Some(Role::Marquee),
            92 => Some(Role::Math),
            93 => Some(Role::MenuBar),
            94 => Some(Role::MenuItemCheckBox),
            95 => Some(Role::MenuItemRadio),
            96 => Some(Role::MenuListPopup),
            97 => Some(Role::Meter),
            98 => Some(Role::Navigation),
            99 => Some(Role::Note),
            100 => Some(Role::PluginObject),
            101 => Some(Role::ProgressIndicator),
            102 => Some(Role::RadioGroup),
            103 => Some(Role::Region),
            104 => Some(Role::RootWebArea),
            105 => Some(Role::Ruby),
            106 => Some(Role::RubyAnnotation),
            107 => Some(Role::ScrollBar),
            108 => Some(Role::ScrollView),
            109 => Some(Role::Search),
            110 => Some(Role::Section),
            111 => Some(Role::SectionFooter),
            112 => Some(Role::SectionHeader),
            113 => Some(Role::Slider),
            114 => Some(Role::SpinButton),
            115 => Some(Role::Splitter),
            116 => Some(Role::Status),
            117 => Some(Role::Strong),
            118 => Some(Role::Suggestion),
            119 => Some(Role::SvgRoot),
            120 => Some(Role::Tab),
            121 => Some(Role::TabList),
            122 => Some(Role::TabPanel),
            123 => Some(Role::Term),
            124 => Some(Role::Time),
            125 => Some(Role::Timer),
            126 => Some(Role::TitleBar),
            127 => Some(Role::Toolbar),
            128 => Some(Role::Tooltip),
            129 => Some(Role::Tree),
            130 => Some(Role::TreeGrid),
            131 => Some(Role::Video),
            132 => Some(Role::WebView),
            133 => Some(Role::Window),
            134 => Some(Role::PdfActionableHighlight),
            135 => Some(Role::PdfRoot),
            136 => Some(Role::GraphicsDocument),
            137 => Some(Role::GraphicsObject),
            138 => Some(Role::GraphicsSymbol),
            139 => Some(Role::DocAbstract),
            140 => Some(Role::DocAcknowledgements),
            141 => Some(Role::DocAfterword),
            142 => Some(Role::DocAppendix),
            143 => Some(Role::DocBackLink),
            144 => Some(Role::DocBiblioEntry),
            145 => Some(Role::DocBibliography),
            146 => Some(Role::DocBiblioRef),
            147 => Some(Role::DocChapter),
            148 => Some(Role::DocColophon),
            149 => Some(Role::DocConclusion),
            150 => Some(Role::DocCover),
            151 => Some(Role::DocCredit),
            152 => Some(Role::DocCredits),
            153 => Some(Role::DocDedication),
            154 => Some(Role::DocEndnote),
            155 => Some(Role::DocEndnotes),
            156 => Some(Role::DocEpigraph),
            157 => Some(Role::DocEpilogue),
            158 => Some(Role::DocErrata),
            159 => Some(Role::DocExample),
            160 => Some(Role::DocFootnote),
            161 => Some(Role::DocForeword),
            162 => Some(Role::DocGlossary),
            163 => Some(Role::DocGlossRef),
            164 => Some(Role::DocIndex),
            165 => Some(Role::DocIntroduction),
            166 => Some(Role::DocNoteRef),
            167 => Some(Role::DocNotice),
            168 => Some(Role::DocPageBreak),
            169 => Some(Role::DocPageFooter),
            170 => Some(Role::DocPageHeader),
            171 => Some(Role::DocPageList),
            172 => Some(Role::DocPart),
            173 => Some(Role::DocPreface),
            174 => Some(Role::DocPrologue),
            175 => Some(Role::DocPullquote),
            176 => Some(Role::DocQna),
            177 => Some(Role::DocSubtitle),
            178 => Some(Role::DocTip),
            179 => Some(Role::DocToc),
            180 => Some(Role::ListGrid),
            181 => Some(Role::Terminal),
            _ => None,
        }
    }

    /// The code that the boundary code table assigns to `self`.
    pub open spec fn spec_code(self) -> u8 {
        match self {
            Role::Unknown => 0,
            Role::TextRun => 1,
            Role::Cell => 2,
            Role::Label => 3,
            Role::Image => 4,
            Role::Link => 5,
            Role::Row => 6,
            Role::ListItem => 7,
            Role::ListMarker => 8,
            Role::TreeItem => 9,
            Role::ListBoxOption => 10,
            Role::MenuItem => 11,
            Role::MenuListOption => 12,
            Role::Paragraph => 13,
            Role::GenericContainer => 14,
            Role::CheckBox => 15,
            Role::RadioButton => 16,
            Role::TextInput => 17,
            Role::Button => 18,
            Role::DefaultButton => 19,
            Role::Pane => 20,
            Role::RowHeader => 21,
            Role::ColumnHeader => 22,
            Role::RowGroup => 23,
            Role::List => 24,
            Role::Table => 25,
            Role::LayoutTableCell => 26,
            Role::LayoutTableRow => 27,
            Role::LayoutTable => 28,
            Role::Switch => 29,
            Role::Menu => 30,
            Role::MultilineTextInput => 31,
            Role::SearchInput => 32,
            Role::DateInput => 33,
            Role::DateTimeInput => 34,
            Role::WeekInput => 35,
            Role::MonthInput => 36,
            Role::TimeInput => 37,
            Role::EmailInput => 38,
            Role::NumberInput => 39,
            Role::PasswordInput => 40,
            Role::PhoneNumberInput => 41,
            Role::UrlInput => 42,
            Role::Abbr => 43,
            Role::Alert => 44,
            Role::AlertDialog => 45,
            Role::Application => 46,
            Role::Article => 47,
            Role::Audio => 48,
            Role::Banner => 49,
            Role::Blockquote => 50,
            Role::Canvas => 51,
            Role::Caption => 52,
            Role::Caret => 53,
            Role::Code => 54,
            Role::ColorWell => 55,
            Role::ComboBox => 56,
            Role::EditableComboBox => 57,
            Role::Complementary => 58,
            Role::Comment => 59,
            Role::ContentDeletion => 60,
            Role::ContentInsertion => 61,
            Role::ContentInfo => 62,
            Role::Definition => 63,
            Role::DescriptionList => 64,
            Role::Details => 65,
            Role::Dialog => 66,
            Role::DisclosureTriangle => 67,
            Role::Document => 68,
            Role::EmbeddedObject => 69,
            Role::Emphasis => 70,
            Role::Feed => 71,
            Role::FigureCaption => 72,
            Role::Figure => 73,
            Role::Footer => 74,
            Role::Form => 75,
            Role::Grid => 76,
            Role::GridCell => 77,
            Role::Group => 78,
            Role::Header => 79,
            Role::Heading => 80,
            Role::Iframe => 81,
            Role::IframePresentational => 82,
            Role::ImeCandidate => 83,
            Role::Keyboard => 84,
            Role::Legend => 85,
            Role::LineBreak => 86,
            Role::ListBox => 87,
            Role::Log => 88,
            Role::Main => 89,
            Role::Mark => 90,
            Role::Marquee => 91,
            Role::Math => 92,
            Role::MenuBar => 93,
            Role::MenuItemCheckBox => 94,
            Role::MenuItemRadio => 95,
            Role::MenuListPopup => 96,
            Role::Meter => 97,
            Role::Navigation => 98,
            Role::Note => 99,
            Role::PluginObject => 100,
            Role::ProgressIndicator => 101,
            Role::RadioGroup => 102,
            Role::Region => 103,
            Role::RootWebArea => 104,
            Role::Ruby => 105,
            Role::RubyAnnotation => 106,
            Role::ScrollBar => 107,
            Role::ScrollView => 108,
            Role::Search => 109,
            Role::Section => 110,
            Role::SectionFooter => 111,
            Role::SectionHeader => 112,
            Role::Slider => 113,
            Role::SpinButton => 114,
            Role::Splitter => 115,
            Role::Status => 116,
            Role::Strong => 117,
            Role::Suggestion => 118,
            Role::SvgRoot => 119,
            Role::Tab => 120,
            Role::TabList => 121,
            Role::TabPanel => 122,
            Role::Term => 123,
            Role::Time => 124,
            Role::Timer => 125,
            Role::TitleBar => 126,
            Role::Toolbar => 127,
            Role::Tooltip => 128,
            Role::Tree => 129,
            Role::TreeGrid => 130,
            Role::Video => 131,
            Role::WebView => 132,
            Role::Window => 133,
            Role::PdfActionableHighlight => 134,
            Role::PdfRoot => 135,
            Role::GraphicsDocument => 136,
            Role::GraphicsObject => 137,
            Role::GraphicsSymbol => 138,
            Role::DocAbstract => 139,
            Role::DocAcknowledgements => 140,
            Role::DocAfterword => 141,
            Role::DocAppendix => 142,
            Role::DocBackLink => 143,
            Role::DocBiblioEntry => 144,
            Role::DocBibliography => 145,
            Role::DocBiblioRef => 146,
            Role::DocChapter => 147,
            Role::DocColophon => 148,
            Role::DocConclusion => 149,
            Role::DocCover => 150,
            Role::DocCredit => 151,
            Role::DocCredits => 152,
            Role::DocDedication => 153,
            Role::DocEndnote => 154,
            Role::DocEndnotes => 155,
            Role::DocEpigraph => 156,
            Role::DocEpilogue => 157,
            Role::DocErrata => 158,
            Role::DocExample => 159,
            Role::DocFootnote => 160,
            Role::DocForeword => 161,
            Role::DocGlossary => 162,
            Role::DocGlossRef => 163,
            Role::DocIndex => 164,
            Role::DocIntroduction => 165,
            Role::DocNoteRef => 166,
            Role::DocNotice => 167,
            Role::DocPageBreak => 168,
            Role::DocPageFooter => 169,
            Role::DocPageHeader => 170,
            Role::DocPageList => 171,
            Role::DocPart => 172,
            Role::DocPreface => 173,
            Role::DocPrologue => 174,
            Role::DocPullquote => 175,
            Role::DocQna => 176,
            Role::DocSubtitle => 177,
            Role::DocTip => 178,
            Role::DocToc => 179,
            Role::ListGrid => 180,
            Role::Terminal => 181,
        }
    }

    /// Decodes one integer that crossed the boundary. The mapping is
    /// total over the table and refuses every other code.
    pub fn from_code(code: u8) -> (r: Option<Role>)
        ensures
            r == Role::spec_from_code(code),
    {
        match code {
            0 => Some(Role::Unknown),
            1 => Some(Role::TextRun),
            2 => Some(Role::Cell),
            3 => Some(Role::Label),
            4 => Some(Role::Image),
            5 => Some(Role::Link),
            6 => Some(Role::Row),
            7 => Some(Role::ListItem),
            8 => Some(Role::ListMarker),
            9 => Some(Role::TreeItem),
            10 => Some(Role::ListBoxOption),
            11 => Some(Role::MenuItem),
            12 => Some(Role::MenuListOption),
            13 => Some(Role::Paragraph),
            14 => Some(Role::GenericContainer),
            15 => Some(Role::CheckBox),
            16 => Some(Role::RadioButton),
            17 => Some(Role::TextInput),
            18 => Some(Role::Button),
            19 => Some(Role::DefaultButton),
            20 => Some(Role::Pane),
            21 => Some(Role::RowHeader),
            22 => Some(Role::ColumnHeader),
            23 => Some(Role::RowGroup),
            24 => Some(Role::List),
            25 => Some(Role::Table),
            26 => Some(Role::LayoutTableCell),
            27 => Some(Role::LayoutTableRow),
            28 => Some(Role::LayoutTable),
            29 => Some(Role::Switch),
            30 => Some(Role::Menu),
            31 => Some(Role::MultilineTextInput),
            32 => Some(Role::SearchInput),
            33 => Some(Role::DateInput),
            34 => Some(Role::DateTimeInput),
            35 => Some(Role::WeekInput),
            36 => Some(Role::MonthInput),
            37 => Some(Role::TimeInput),
            38 => Some(Role::EmailInput),
            39 => Some(Role::NumberInput),
            40 => Some(Role::PasswordInput),
            41 => Some(Role::PhoneNumberInput),
            42 => Some(Role::UrlInput),
            43 => Some(Role::Abbr),
            44 => Some(Role::Alert),
            45 => Some(Role::AlertDialog),
            46 => Some(Role::Application),
            47 => Some(Role::Article),
            48 => Some(Role::Audio),
            49 => Some(Role::Banner),
            50 => Some(Role::Blockquote),
            51 => Some(Role::Canvas),
            52 => Some(Role::Caption),
            53 => Some(Role::Caret),
            54 => Some(Role::Code),
            55 => Some(Role::ColorWell),
            56 => Some(Role::ComboBox),
            57 => Some(Role::EditableComboBox),
            58 => Some(Role::Complementary),
            59 => Some(Role::Comment),
            60 => Some(Role::ContentDeletion),
            61 => Some(Role::ContentInsertion),
            62 => Some(Role::ContentInfo),
            63 => Some(Role::Definition),
            64 => Some(Role::DescriptionList),
            65 => Some(Role::Details),
            66 => Some(Role::Dialog),
            67 => Some(Role::DisclosureTriangle),
            68 => Some(Role::Document),
            69 => Some(Role::EmbeddedObject),
            70 => Some(Role::Emphasis),
            71 => Some(Role::Feed),
            72 => Some(Role::FigureCaption),
            73 => Some(Role::Figure),
            74 => Some(Role::Footer),
            75 => Some(Role::Form),
            76 => Some(Role::Grid),
            77 => Some(Role::GridCell),
            78 => Some(Role::Group),
            79 => Some(Role::Header),
            80 => Some(Role::Heading),
            81 => Some(Role::Iframe),
            82 => Some(Role::IframePresentational),
            83 => Some(Role::ImeCandidate),
            84 => Some(Role::Keyboard),
            85 => Some(Role::Legend),
            86 => Some(Role::LineBreak),
            87 => Some(Role::ListBox),
            88 => Some(Role::Log),
            89 => Some(Role::Main),
            90 => Some(Role::Mark),
            91 => Some(Role::Marquee),
            92 => Some(Role::Math),
            93 => Some(Role::MenuBar),
            94 => Some(Role::MenuItemCheckBox),
            95 => Some(Role::MenuItemRadio),
            96 => Some(Role::MenuListPopup),
            97 => Some(Role::Meter),
            98 => Some(Role::Navigation),
            99 => Some(Role::Note),
            100 => Some(Role::PluginObject),
            101 => Some(Role::ProgressIndicator),
            102 => Some(Role::RadioGroup),
            103 => Some(Role::Region),
            104 => Some(Role::RootWebArea),
            105 => Some(Role::Ruby),
            106 => Some(Role::RubyAnnotation),
            107 => Some(Role::ScrollBar),
            108 => Some(Role::ScrollView),
            109 => Some(Role::Search),
            110 => Some(Role::Section),
            111 => Some(Role::SectionFooter),
            112 => Some(Role::SectionHeader),
            113 => Some(Role::Slider),
            114 => Some(Role::SpinButton),
            115 => Some(Role::Splitter),
            116 => Some(Role::Status),
            117 => Some(Role::Strong),
            118 => Some(Role::Suggestion),
            119 => Some(Role::SvgRoot),
            120 => Some(Role::Tab),
            121 => Some(Role::TabList),
            122 => Some(Role::TabPanel),
            123 => Some(Role::Term),
            124 => Some(Role::Time),
            125 => Some(Role::Timer),
            126 => Some(Role::TitleBar),
            127 => Some(Role::Toolbar),
            128 => Some(Role::Tooltip),
            129 => Some(Role::Tree),
            130 => Some(Role::TreeGrid),
            131 => Some(Role::Video),
            132 => Some(Role::WebView),
            133 => Some(Role::Window),
            134 => Some(Role::PdfActionableHighlight),
            135 => Some(Role::PdfRoot),
            136 => Some(Role::GraphicsDocument),
            137 => Some(Role::GraphicsObject),
            138 => Some(Role::GraphicsSymbol),
            139 => Some(Role::DocAbstract),
            140 => Some(Role::DocAcknowledgements),
            141 => Some(Role::DocAfterword),
            142 => Some(Role::DocAppendix),
            143 => Some(Role::DocBackLink),
            144 => Some(Role::DocBiblioEntry),
            145 => Some(Role::DocBibliography),
            146 => Some(Role::DocBiblioRef),
            147 => Some(Role::DocChapter),
            148 => Some(Role::DocColophon),
            149 => Some(Role::DocConclusion),
            150 => Some(Role::DocCover),
            151 => Some(Role::DocCredit),
            152 => Some(Role::DocCredits),
            153 => Some(Role::DocDedication),
            154 => Some(Role::DocEndnote),
            155 => Some(Role::DocEndnotes),
            156 => Some(Role::DocEpigraph),
            157 => Some(Role::DocEpilogue),
            158 => Some(Role::DocErrata),
            159 => Some(Role::DocExample),
            160 => Some(Role::DocFootnote),
            161 => Some(Role::DocForeword),
            162 => Some(Role::DocGlossary),
            163 => Some(Role::DocGlossRef),
            164 => Some(Role::DocIndex),
            165 => Some(Role::DocIntroduction),
            166 => Some(Role::DocNoteRef),
            167 => Some(Role::DocNotice),
            168 => Some(Role::DocPageBreak),
            169 => Some(Role::DocPageFooter),
            170 => Some(Role::DocPageHeader),
            171 => Some(Role::DocPageList),
            172 => Some(Role::DocPart),
            173 => Some(Role::DocPreface),
            174 => Some(Role::DocPrologue),
            175 => Some(Role::DocPullquote),
            176 => Some(Role::DocQna),
            177 => Some(Role::DocSubtitle),
            178 => Some(Role::DocTip),
            179 => Some(Role::DocToc),
            180 => Some(Role::ListGrid),
            181 => Some(Role::Terminal),
            _ => None,
        }
    }

    /// Encodes `self` for the boundary, inverting `from_code`.
    pub fn code(self) -> (r: u8)
        ensures
            r == self.spec_code(),
    {
        match self {
            Role::Unknown => 0,
            Role::TextRun => 1,
            Role::Cell => 2,
            Role::Label => 3,
            Role::Image => 4,
            Role::Link => 5,
            Role::Row => 6,
            Role::ListItem => 7,
            Role::ListMarker => 8,
            Role::TreeItem => 9,
            Role::ListBoxOption => 10,
            Role::MenuItem => 11,
            Role::MenuListOption => 12,
            Role::Paragraph => 13,
            Role::GenericContainer => 14,
            Role::CheckBox => 15,
            Role::RadioButton => 16,
            Role::TextInput => 17,
            Role::Button => 18,
            Role::DefaultButton => 19,
            Role::Pane => 20,
            Role::RowHeader => 21,
            Role::ColumnHeader => 22,
            Role::RowGroup => 23,
            Role::List => 24,
            Role::Table => 25,
            Role::LayoutTableCell => 26,
            Role::LayoutTableRow => 27,
            Role::LayoutTable => 28,
            Role::Switch => 29,
            Role::Menu => 30,
            Role::MultilineTextInput => 31,
            Role::SearchInput => 32,
            Role::DateInput => 33,
            Role::DateTimeInput => 34,
            Role::WeekInput => 35,
            Role::MonthInput => 36,
            Role::TimeInput => 37,
            Role::EmailInput => 38,
            Role::NumberInput => 39,
            Role::PasswordInput => 40,
            Role::PhoneNumberInput => 41,
            Role::UrlInput => 42,
            Role::Abbr => 43,
            Role::Alert => 44,
            Role::AlertDialog => 45,
            Role::Application => 46,
            Role::Article => 47,
            Role::Audio => 48,
            Role::Banner => 49,
            Role::Blockquote => 50,
            Role::Canvas => 51,
            Role::Caption => 52,
            Role::Caret => 53,
            Role::Code => 54,
            Role::ColorWell => 55,
            Role::ComboBox => 56,
            Role::EditableComboBox => 57,
            Role::Complementary => 58,
            Role::Comment => 59,
            Role::ContentDeletion => 60,
            Role::ContentInsertion => 61,
            Role::ContentInfo => 62,
            Role::Definition => 63,
            Role::DescriptionList => 64,
            Role::Details => 65,
            Role::Dialog => 66,
            Role::DisclosureTriangle => 67,
            Role::Document => 68,
            Role::EmbeddedObject => 69,
            Role::Emphasis => 70,
            Role::Feed => 71,
            Role::FigureCaption => 72,
            Role::Figure => 73,
            Role::Footer => 74,
            Role::Form => 75,
            Role::Grid => 76,
            Role::GridCell => 77,
            Role::Group => 78,
            Role::Header => 79,
            Role::Heading => 80,
            Role::Iframe => 81,
            Role::IframePresentational => 82,
            Role::ImeCandidate => 83,
            Role::Keyboard => 84,
            Role::Legend => 85,
            Role::LineBreak => 86,
            Role::ListBox => 87,
            Role::Log => 88,
            Role::Main => 89,
            Role::Mark => 90,
            Role::Marquee => 91,
            Role::Math => 92,
            Role::MenuBar => 93,
            Role::MenuItemCheckBox => 94,
            Role::MenuItemRadio => 95,
            Role::MenuListPopup => 96,
            Role::Meter => 97,
            Role::Navigation => 98,
            Role::Note => 99,
            Role::PluginObject => 100,
            Role::ProgressIndicator => 101,
            Role::RadioGroup => 102,
            Role::Region => 103,
            Role::RootWebArea => 104,
            Role::Ruby => 105,
            Role::RubyAnnotation => 106,
            Role::ScrollBar => 107,
            Role::ScrollView => 108,
            Role::Search => 109,
            Role::Section => 110,
            Role::SectionFooter => 111,
            Role::SectionHeader => 112,
            Role::Slider => 113,
            Role::SpinButton => 114,
            Role::Splitter => 115,
            Role::Status => 116,
            Role::Strong => 117,
            Role::Suggestion => 118,
            Role::SvgRoot => 119,
            Role::Tab => 120,
            Role::TabList => 121,
            Role::TabPanel => 122,
            Role::Term => 123,
            Role::Time => 124,
            Role::Timer => 125,
            Role::TitleBar => 126,
            Role::Toolbar => 127,
            Role::Tooltip => 128,
            Role::Tree => 129,
            Role::TreeGrid => 130,
            Role::Video => 131,
            Role::WebView => 132,
            Role::Window => 133,
            Role::PdfActionableHighlight => 134,
            Role::PdfRoot => 135,
            Role::GraphicsDocument => 136,
            Role::GraphicsObject => 137,
            Role::GraphicsSymbol => 138,
            Role::DocAbstract => 139,
            Role::DocAcknowledgements => 140,
            Role::DocAfterword => 141,
            Role::DocAppendix => 142,
            Role::DocBackLink => 143,
            Role::DocBiblioEntry => 144,
            Role::DocBibliography => 145,
            Role::DocBiblioRef => 146,
            Role::DocChapter => 147,
            Role::DocColophon => 148,
            Role::DocConclusion => 149,
            Role::DocCover => 150,
            Role::DocCredit => 151,
            Role::DocCredits => 152,
            Role::DocDedication => 153,
            Role::DocEndnote => 154,
            Role::DocEndnotes => 155,
            Role::DocEpigraph => 156,
            Role::DocEpilogue => 157,
            Role::DocErrata => 158,
            Role::DocExample => 159,
            Role::DocFootnote => 160,
            Role::DocForeword => 161,
            Role::DocGlossary => 162,
            Role::DocGlossRef => 163,
            Role::DocIndex => 164,
            Role::DocIntroduction => 165,
            Role::DocNoteRef => 166,
            Role::DocNotice => 167,
            Role::DocPageBreak => 168,
            Role::DocPageFooter => 169,
            Role::DocPageHeader => 170,
            Role::DocPageList => 171,
            Role::DocPart => 172,
            Role::DocPreface => 173,
            Role::DocPrologue => 174,
            Role::DocPullquote => 175,
            Role::DocQna => 176,
            Role::DocSubtitle => 177,
            Role::DocTip => 178,
            Role::DocToc => 179,
            Role::ListGrid => 180,
            Role::Terminal => 181,
        }
    }
}

} // verus!
