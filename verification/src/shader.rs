//! The two embedded shader programs. The vertex program scales the
//! incoming position by the scalar uniform `t` on both axes and passes the
//! vertex color through; the fragment program outputs the interpolated
//! color at full opacity.

use vstd::prelude::*;

verus! {

/// The embedded vertex program, character for character. It declares the
/// single scalar uniform `t` and multiplies both position axes by it.
pub open spec fn vertex_shader_source_spec() -> Seq<char> {
    "
        #version 440
        layout(location = 0) in vec2 inPosition;
        layout(location = 1) in vec3 inColor;

        uniform float t;
        out vec3 aColor;

        void main() {
            aColor = inColor;
            vec2 pos = inPosition;
            pos.x *= t;
            pos.y *= t;
            gl_Position = vec4(pos, 0.0, 1.0);
        }
    "@
}

/// The embedded fragment program, character for character. It outputs the
/// interpolated vertex color at full opacity.
pub open spec fn fragment_shader_source_spec() -> Seq<char> {
    "
        #version 440
        out vec4 color;
        in vec3 aColor;

        void main() {
            color = vec4(aColor, 1.0);
        }
    "@
}

/// Source text of the vertex program: exactly the embedded program that
/// the specification above spells out.
pub fn vertex_shader_source() -> (r: &'static str)
    ensures
        r@ == vertex_shader_source_spec(),
{
    "
        #version 440
        layout(location = 0) in vec2 inPosition;
        layout(location = 1) in vec3 inColor;

        uniform float t;
        out vec3 aColor;

        void main() {
            aColor = inColor;
            vec2 pos = inPosition;
            pos.x *= t;
            pos.y *= t;
            gl_Position = vec4(pos, 0.0, 1.0);
        }
    "
}

/// Source text of the fragment program: exactly the embedded program that
/// the specification above spells out.
pub fn fragment_shader_source() -> (r: &'static str)
    ensures
        r@ == fragment_shader_source_spec(),
{
    "
        #version 440
        out vec4 color;
        in vec3 aColor;

        void main() {
            color = vec4(aColor, 1.0);
        }
    "
}

/// The name of the scalar uniform the vertex program animates by.
pub fn animation_uniform_name() -> (r: &'static str)
    ensures
        r@ == "t"@,
{
    "t"
}

} // verus!
