//! The template registry: per content kind, the class-name suffix, the
//! directory segment, and the source skeleton of the generated class.
use vstd::prelude::*;
use vstd::string::*;

verus! {

/// The four kinds of game-content record.
#[derive(Clone, Copy, Debug, PartialEq, Eq, Structural)]
pub enum ContentKind {
    Mob,
    Event,
    Item,
    Recipe,
}

/// Appended to the normalised id to name the generated class.
pub open spec fn suffix_of(kind: ContentKind) -> Seq<char> {
    match kind {
        ContentKind::Mob => "Entity"@,
        ContentKind::Event => "EventHandler"@,
        ContentKind::Item => "Item"@,
        ContentKind::Recipe => ""@,
    }
}

/// The package segment under `com/<namespace>/` for the code kinds.
pub open spec fn segment_of(kind: ContentKind) -> Seq<char> {
    match kind {
        ContentKind::Mob => "entity"@,
        ContentKind::Event => "event"@,
        ContentKind::Item => "item"@,
        ContentKind::Recipe => "recipes"@,
    }
}

/// The lower-case name of a kind, used for default file names.
pub open spec fn kind_name_of(kind: ContentKind) -> Seq<char> {
    match kind {
        ContentKind::Mob => "mob"@,
        ContentKind::Event => "event"@,
        ContentKind::Item => "item"@,
        ContentKind::Recipe => "recipe"@,
    }
}

/// The generated source of a class named `class` in namespace `ns`.
pub open spec fn java_source_of(kind: ContentKind, ns: Seq<char>, class: Seq<char>) -> Seq<char> {
    match kind {
        ContentKind::Mob => "package com."@ + ns
            + ".entity;\n\nimport net.minecraft.world.entity.EntityType;\nimport net.minecraft.world.entity.Mob;\n\npublic class "@
            + class + " extends Mob {\n    // Entity implementation\n}\n"@,
        ContentKind::Event => "package com."@ + ns
            + ".event;\n\nimport net.minecraftforge.eventbus.api.SubscribeEvent;\nimport net.minecraftforge.fml.common.Mod;\n\n@Mod.EventBusSubscriber(modid = \""@
            + ns + "\")\npublic class "@ + class
            + " {\n    // Event handler implementation\n}\n"@,
        ContentKind::Item => "package com."@ + ns
            + ".item;\n\nimport net.minecraft.world.item.Item;\nimport net.minecraft.world.item.Rarity;\n\npublic class "@
            + class + " extends Item {\n    public "@ + class
            + "() {\n        super(new Item.Properties()\n            .stacksTo(64)\n            .rarity(Rarity.COMMON)\n        );\n    }\n}\n"@,
        ContentKind::Recipe => Seq::empty(),
    }
}

impl ContentKind {
    pub fn class_suffix(self) -> (r: &'static str)
        ensures
            r@ == suffix_of(self),
    {
        match self {
            ContentKind::Mob => "Entity",
            ContentKind::Event => "EventHandler",
            ContentKind::Item => "Item",
            ContentKind::Recipe => "",
        }
    }

    pub fn segment(self) -> (r: &'static str)
        ensures
            r@ == segment_of(self),
    {
        match self {
            ContentKind::Mob => "entity",
            ContentKind::Event => "event",
            ContentKind::Item => "item",
            ContentKind::Recipe => "recipes",
        }
    }

    pub fn kind_name(self) -> (r: &'static str)
        ensures
            r@ == kind_name_of(self),
    {
        match self {
            ContentKind::Mob => "mob",
            ContentKind::Event => "event",
            ContentKind::Item => "item",
            ContentKind::Recipe => "recipe",
        }
    }
}

/// Renders the class skeleton of a code kind.
pub fn java_source(kind: ContentKind, ns: &str, class: &str) -> (r: String)
    requires
        kind != ContentKind::Recipe,
    ensures
        r@ == java_source_of(kind, ns@, class@),
{
    let mut s = String::from_str("package com.");
    s.append(ns);
    match kind {
        ContentKind::Mob => {
            s.append(
                ".entity;\n\nimport net.minecraft.world.entity.EntityType;\nimport net.minecraft.world.entity.Mob;\n\npublic class ",
            );
            s.append(class);
            s.append(" extends Mob {\n    // Entity implementation\n}\n");
        },
        ContentKind::Event => {
            s.append(
                ".event;\n\nimport net.minecraftforge.eventbus.api.SubscribeEvent;\nimport net.minecraftforge.fml.common.Mod;\n\n@Mod.EventBusSubscriber(modid = \"",
            );
            s.append(ns);
            s.append("\")\npublic class ");
            s.append(class);
            s.append(" {\n    // Event handler implementation\n}\n");
        },
        _ => {
            s.append(
                ".item;\n\nimport net.minecraft.world.item.Item;\nimport net.minecraft.world.item.Rarity;\n\npublic class ",
            );
            s.append(class);
            s.append(" extends Item {\n    public ");
            s.append(class);
            s.append(
                "() {\n        super(new Item.Properties()\n            .stacksTo(64)\n            .rarity(Rarity.COMMON)\n        );\n    }\n}\n",
            );
        },
    }
    s
}

} // verus!
